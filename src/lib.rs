//! A student registry served over HTTP: the record types, list paging, the
//! decision that ends each operation (its reply, from what the SQL statement
//! gave), the texts of the reply envelopes, and a model of the `studentinfo`
//! table over which the operations' combined behaviour is proved.

pub mod handler;
pub mod laws;
pub mod model;
pub mod paging;
pub mod reply;
pub mod table;
pub mod text;
