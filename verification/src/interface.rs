use vstd::prelude::*;

verus! {

/// Standard methods for interacting with a user and a host system.  The
/// library consumes this interface; implementations live with whoever
/// runs it, and nothing is assumed of what they do.
pub trait Interface {
    /// Logs a message to the user.
    fn log_msg(&self, msg: String);

    /// Logs a message to the user without a line break.
    fn log_inline(&self, msg: String);

    /// Logs a warning to the user.
    fn log_warn(&self, msg: String);

    /// Logs an error to the user.
    fn log_error(&self, msg: String);

    /// Gets a line of input from the user.
    fn get_line(&self) -> String;

    /// Reads a file to a string.
    fn read_fs_string(&self, path: &String) -> Result<String, ()>;

    /// Reads a file to bytes.
    fn read_fs_bytes(&self, path: &String) -> Result<Vec<u8>, ()>;

    /// Writes a string to a file.
    fn write_fs_string(&self, data: String, out: &String) -> Result<(), ()>;

    /// Writes bytes to a file.
    fn write_fs_bytes(&self, data: Vec<u8>, out: &String) -> Result<(), ()>;
}

} // verus!
