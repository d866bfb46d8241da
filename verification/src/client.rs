pub mod sql_client;
