//! The ways in which preparing a configured image can fail.

use vstd::prelude::*;
use vstd::string::StringExecFns;

verus! {

/// A failed patch request. Every failure is final for the request that met
/// it: nothing is retried, and the caller starts over if it wants to.
#[derive(Debug, PartialEq, Eq)]
pub enum CmdError {
    /// Reading, copying or writing a file failed; the cause is the system's
    /// description of it.
    Io(String),
    /// The record could not be encoded; the cause is the encoder's
    /// description of it.
    Encode(String),
    /// A named resource could not be mapped to a place on disk.
    Resolve(&'static str),
}

impl Clone for CmdError {
    fn clone(&self) -> (copy: Self)
        ensures
            copy.text() == self.text(),
            copy is Io <==> self is Io,
            copy is Encode <==> self is Encode,
            copy is Resolve <==> self is Resolve,
    {
        match self {
            CmdError::Io(cause) => CmdError::Io(cause.clone()),
            CmdError::Encode(cause) => CmdError::Encode(cause.clone()),
            CmdError::Resolve(what) => CmdError::Resolve(what),
        }
    }
}

impl CmdError {
    /// The text shown to the user for this failure.
    pub open spec fn text(&self) -> Seq<char> {
        match self {
            CmdError::Io(cause) => "io error: "@ + cause@,
            CmdError::Encode(cause) => "msgpack encode error: "@ + cause@,
            CmdError::Resolve(what) => "fail to resolve '"@ + what@ + "'"@,
        }
    }

    /// Renders the failure as one line of text.
    pub fn message(&self) -> (s: String)
        ensures
            s@ == self.text(),
    {
        match self {
            CmdError::Io(cause) => {
                let mut s = String::from_str("io error: ");
                s.append(cause.as_str());
                s
            },
            CmdError::Encode(cause) => {
                let mut s = String::from_str("msgpack encode error: ");
                s.append(cause.as_str());
                s
            },
            CmdError::Resolve(what) => {
                let mut s = String::from_str("fail to resolve '");
                s.append(what);
                s.append("'");
                s
            },
        }
    }
}

} // verus!
