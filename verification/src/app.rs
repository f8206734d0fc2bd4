pub mod message_handling;
pub mod state;
pub mod updating_database;
pub mod updating_entity_view;
pub mod updating_history_view;
pub mod updating_relationship_view;
