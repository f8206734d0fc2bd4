use vstd::prelude::*;

verus! {

/// Whether a character ends a paragraph without ending a line: the three
/// information separators above the unit separator, the next-line control
/// and the paragraph separator. The editor widget cannot take a text with
/// one of them.
pub open spec fn is_paragraph_break(c: char) -> bool {
    c == '\u{1c}' || c == '\u{1d}' || c == '\u{1e}' || c == '\u{85}' || c == '\u{2029}'
}

/// Whether a text is free of such characters.
pub open spec fn has_no_paragraph_break(text: Seq<char>) -> bool {
    forall|i: int| 0 <= i < text.len() ==> !is_paragraph_break(#[trigger] text[i])
}

/// The text with a line feed in place of each such character.
pub open spec fn with_line_feeds(text: Seq<char>) -> Seq<char> {
    Seq::new(
        text.len(),
        |i: int|
            if is_paragraph_break(text[i]) {
                '\n'
            } else {
                text[i]
            },
    )
}

/// Puts a line feed in place of each character that ends a paragraph
/// without ending a line.
pub fn line_feeds_for_breaks(text: &str) -> (plain: String)
    ensures
        plain@ == with_line_feeds(text@),
        has_no_paragraph_break(plain@),
{
    let n: usize = text.unicode_len();
    let mut plain = String::new();
    let mut start: usize = 0;
    let mut i: usize = 0;
    proof {
        reveal_strlit("\n");
        assert(plain@ =~= with_line_feeds(text@.take(0)));
    }
    while i < n
        invariant
            start <= i <= n,
            n == text@.len(),
            "\n"@ =~= seq!['\n'],
            plain@ == with_line_feeds(text@.take(start as int)),
            forall|k: int| start <= k < i ==> !is_paragraph_break(#[trigger] text@[k]),
        decreases n - i,
    {
        let c: char = text.get_char(i);
        if c == '\u{1c}' || c == '\u{1d}' || c == '\u{1e}' || c == '\u{85}' || c == '\u{2029}' {
            let ghost before = plain@;
            plain.append(text.substring_char(start, i));
            plain.append("\n");
            proof {
                assert(plain@ =~= before + text@.subrange(start as int, i as int) + seq!['\n']);
                assert(plain@ =~= with_line_feeds(text@.take(i + 1)));
            }
            start = i + 1;
        }
        i = i + 1;
    }
    let ghost before = plain@;
    plain.append(text.substring_char(start, n));
    proof {
        assert(text@.take(n as int) =~= text@);
        assert(plain@ =~= before + text@.subrange(start as int, n as int));
        assert(plain@ =~= with_line_feeds(text@));
    }
    plain
}

/// The text that an editor widget holds once it has been made with the given
/// text. The widget breaks the text into lines and reads it back line by
/// line, so what comes back need not be what went in.
pub uninterp spec fn text_in_editor(text: Seq<char>) -> Seq<char>;

/// Calls `Content::with_text` of iced's text editor and reads the content
/// back with `Content::text`. The contract gives the result its name, which
/// claims that the same text always reads back the same, and says of it what
/// `Content::text` does last: it ends the text with a line feed where it has
/// none, so that the empty text reads back as one line feed. How the editor
/// cuts a text into lines is not stated. The text must be free of characters
/// that end a paragraph without ending a line: the editor shapes each line
/// as it is made, and stops the program at a line whose paragraphs run in
/// different directions.
#[verifier::external_body]
fn read_back(text: &str) -> (shown: String)
    requires
        has_no_paragraph_break(text@),
    ensures
        shown@ == text_in_editor(text@),
        shown@.len() > 0 && shown@.last() == '\n',
        text@.len() == 0 ==> shown@ == seq!['\n'],
{
    let content: iced::widget::text_editor::Content = iced::widget::text_editor::Content::with_text(
        text,
    );
    content.text()
}

/// What an editor holds, as two texts.
pub struct EditorModel {
    /// The text as the user sees it now.
    pub buffer: Seq<char>,
    /// The text as it was last saved or loaded.
    pub persisted: Seq<char>,
}

impl EditorModel {
    /// An editor that shows a text with nothing unsaved.
    pub open spec fn holding(text: Seq<char>) -> EditorModel {
        EditorModel { buffer: text, persisted: text }
    }

    /// An editor that shows a text that came from the database: the text
    /// with a line feed in place of each character that ends a paragraph
    /// without ending a line, as the editor widget reads it back, with
    /// nothing unsaved.
    pub open spec fn loaded(text: Seq<char>) -> EditorModel {
        EditorModel::holding(text_in_editor(with_line_feeds(text)))
    }

    /// An editor that was loaded with the empty text: it shows one line
    /// feed, with nothing unsaved.
    pub open spec fn blank() -> EditorModel {
        EditorModel::holding(seq!['\n'])
    }

    /// The editor after the user changed the text to `text`.
    pub open spec fn edited(self, text: Seq<char>) -> EditorModel {
        EditorModel { buffer: text, persisted: self.persisted }
    }

    /// The editor after the user discarded the changes.
    pub open spec fn discarded(self) -> EditorModel {
        EditorModel { buffer: self.persisted, persisted: self.persisted }
    }

    /// The editor after its text was saved.
    pub open spec fn saved(self) -> EditorModel {
        EditorModel { buffer: self.buffer, persisted: self.buffer }
    }

    /// Whether the editor holds unsaved changes.
    pub open spec fn is_dirty(self) -> bool {
        self.buffer != self.persisted
    }
}

/// The text of one editor and the text it was last saved with.
#[derive(Debug)]
pub struct EditorState {
    current_text: String,
    persisted_text: String,
}

impl View for EditorState {
    type V = EditorModel;

    closed spec fn view(&self) -> EditorModel {
        EditorModel { buffer: self.current_text@, persisted: self.persisted_text@ }
    }
}

impl EditorState {
    /// An editor for a text that came from the database: it shows the text,
    /// with a line feed in place of each character that ends a paragraph
    /// without ending a line, as the editor widget reads it back, which ends
    /// with a line feed. The editor holds nothing unsaved. For the empty text
    /// it is the blank editor.
    pub fn new(text: &str) -> (state: Self)
        ensures
            state@ == EditorModel::loaded(text@),
            state@.buffer.len() > 0 && state@.buffer.last() == '\n',
            text@.len() == 0 ==> state@ == EditorModel::blank(),
    {
        let plain = line_feeds_for_breaks(text);
        Self::holding(read_back(plain.as_str()))
    }

    /// An editor that shows exactly the given text, with nothing unsaved.
    pub fn holding(text: String) -> (state: Self)
        ensures
            state@ == EditorModel::holding(text@),
    {
        let persisted_text = text.clone();
        EditorState { current_text: text, persisted_text }
    }

    /// Takes the text as the user has changed it. The saved text stays.
    pub fn edit(&mut self, text: String)
        ensures
            final(self)@ == old(self)@.edited(text@),
    {
        self.current_text = text;
    }

    /// The text as the user sees it now.
    pub fn get_text(&self) -> (text: String)
        ensures
            text@ == self@.buffer,
    {
        self.current_text.clone()
    }

    /// The text as it was last saved or loaded.
    pub fn get_persisted_text(&self) -> (text: String)
        ensures
            text@ == self@.persisted,
    {
        self.persisted_text.clone()
    }

    /// Discards the changes: the editor shows the saved text again.
    pub fn reset(&mut self)
        ensures
            final(self)@ == old(self)@.discarded(),
            !final(self)@.is_dirty(),
    {
        self.current_text = self.persisted_text.clone();
    }

    /// Whether the editor holds unsaved changes.
    pub fn is_changed(&self) -> (changed: bool)
        ensures
            changed == self@.is_dirty(),
    {
        self.current_text != self.persisted_text
    }

    /// Records that the text now shown has been saved.
    pub fn saved(&mut self)
        ensures
            final(self)@ == old(self)@.saved(),
            !final(self)@.is_dirty(),
    {
        self.persisted_text = self.current_text.clone();
    }
}

impl Default for EditorState {
    /// An editor for the empty text.
    fn default() -> (state: Self)
        ensures
            state@ == EditorModel::blank(),
    {
        proof {
            reveal_strlit("");
            assert(""@ =~= Seq::<char>::empty());
        }
        Self::new("")
    }
}

/// After a save the editor holds nothing unsaved.
pub proof fn lemma_saved_is_clean(editor: EditorModel)
    ensures
        !editor.saved().is_dirty(),
{
}

/// After a discard the editor holds nothing unsaved.
pub proof fn lemma_discarded_is_clean(editor: EditorModel)
    ensures
        !editor.discarded().is_dirty(),
{
}

/// An edit that is discarded leaves the editor showing the saved text, whatever
/// was typed. Where nothing was unsaved before the edit, the editor is as it was.
pub proof fn lemma_edit_then_discard(editor: EditorModel, text: Seq<char>)
    ensures
        editor.edited(text).discarded().buffer == editor.persisted,
        !editor.is_dirty() ==> editor.edited(text).discarded() == editor,
{
}

} // verus!
