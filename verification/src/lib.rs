//! A credential-injection hook library.
//!
//! The library recognises one configured target file among the files a host
//! process opens, counts the lines read from each tracked stream, and, on the
//! second line of the target file, substitutes a secret line recovered from an
//! encrypted record embedded in the artifact.  The secret is bound to one
//! machine: the encryption key is derived from an application identifier and
//! the machine's identity string, so the record decrypts only where it was
//! produced.
//!
//! The modules, leaves first: [`hexcodec`] encodes and decodes hex strings;
//! [`encryption`] derives keys and seals or opens the secret; [`params`]
//! turns the embedded hex record into the replacement line; [`state`] tracks
//! per-stream read progress; [`substitute`] performs the bounded in-place
//! buffer replacement; [`hooks`] composes them into the decisions taken at
//! the three intercepted operations (open, read-line, close).

pub mod hexcodec;
pub mod encryption;
pub mod params;
pub mod state;
pub mod substitute;
pub mod hooks;




