//! Verified core of lightweight SQLite bindings: result codes, column types,
//! NUL-terminated strings and the arguments that the bindings hand to SQLite.
pub mod result_code;
pub mod column_type;
pub mod cstring;
pub mod result;
pub mod stmt;
pub mod extension;

pub use column_type::ColumnType;
pub use cstring::{strdyn, CString, NulError};
pub use extension::{register_extension, AllocRequest, INNOCUOUS, OK, UTF8};
pub use result::{Destructor, ErrorArgs, ResultArgs};
pub use result_code::ResultCode;
