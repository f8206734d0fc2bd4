//! State handling for a browser and editor of lore databases: columns that
//! filter and select, chains of such columns that keep each other consistent,
//! editors that know whether they hold unsaved text, and the dialogs that
//! create, rename and delete records.
//!
//! The library never touches a database. It answers each event with the
//! request that has to be carried out next, and takes the answer back as the
//! next event.
//!
//! A view is a chain of columns, each listing what the selections before it
//! allow. Picking a row deselects what comes after it and has only the
//! columns after it listed afresh; what was picked stays picked, and no
//! search text of an earlier column is read. A search text has its own
//! column listed afresh, and those after it. A change to the database, a
//! newly opened database and the switch that shows protected names have
//! every column concerned listed afresh. Whenever a column is listed afresh,
//! its selection is kept only if it is still on offer, so that a label whose
//! last descriptor was deleted is deselected with it.

pub mod app;
pub mod collaborator;
pub mod db_col_view;
pub mod dialog;
pub mod editor;
pub mod entity_view;
pub mod errors;
pub mod guarantees;
pub mod history_view;
pub mod number_text;
pub mod relationship_view;
