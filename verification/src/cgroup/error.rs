//! What goes wrong with a cgroup.

use vstd::prelude::*;

use crate::text;
use crate::text::debug_quoted;

verus! {

/// What can go wrong with a cgroup.
#[derive(Debug)]
pub enum CgroupError {
    /// The cgroup directory does not exist.
    NotFound(String),
    /// The kernel does not offer the controller at this path.
    ControllerNotAvailable { controller: String, path: String },
    /// The file could not be read; `source` is the system's message.
    ReadFailed { path: String, source: String },
    /// The file could not be written; `source` is the system's message.
    WriteFailed { path: String, source: String },
    /// The file holds something else than expected.
    ParseError { path: String, content: String, detail: String },
    /// The value may not be written to the file.
    InvalidValue { field: String, value: String, expected: String },
}

/// A parse failure: what was read, and what is wrong with it.
pub struct Fault {
    pub content: Seq<char>,
    pub detail: Seq<char>,
}

impl CgroupError {
    /// The error is the parse failure `f` at `path`.
    pub open spec fn is_fault(self, path: Seq<char>, f: Fault) -> bool {
        self matches CgroupError::ParseError { path: p, content, detail } && p@ == path && content@
            == f.content && detail@ == f.detail
    }

    /// The error says that `path` could not be read because of `source`.
    pub open spec fn is_read_failed(self, path: Seq<char>, source: Seq<char>) -> bool {
        self matches CgroupError::ReadFailed { path: p, source: s } && p@ == path && s@ == source
    }

    /// The error says that `value` is not acceptable for `field`.
    pub open spec fn is_invalid(
        self,
        field: Seq<char>,
        value: Seq<char>,
        expected: Seq<char>,
    ) -> bool {
        self matches CgroupError::InvalidValue { field: f, value: v, expected: e } && f@ == field
            && v@ == value && e@ == expected
    }

    /// The message shown for the error.
    pub open spec fn message(self) -> Seq<char> {
        match self {
            CgroupError::NotFound(path) => "cgroup path not found: "@ + path@,
            CgroupError::ControllerNotAvailable { controller, path } => "controller "@
                + text::debug_text(controller@) + " not available at "@ + path@,
            CgroupError::ReadFailed { path, source } => "failed to read "@ + path@ + ": "@
                + source@,
            CgroupError::WriteFailed { path, source } => "failed to write "@ + path@ + ": "@
                + source@,
            CgroupError::ParseError { path, content, detail } => "failed to parse "@ + path@
                + ": "@ + detail@ + " (content: "@ + text::debug_text(content@) + ")"@,
            CgroupError::InvalidValue { field, value, expected } => "invalid value for "@ + field@
                + ": "@ + text::debug_text(value@) + " (expected "@ + expected@ + ")"@,
        }
    }

    /// Renders the error for people.
    pub fn to_string(&self) -> (r: String)
        ensures
            r@ == self.message(),
    {
        let mut out = String::new();
        match self {
            CgroupError::NotFound(path) => {
                out.append("cgroup path not found: ");
                out.append(path.as_str());
            },
            CgroupError::ControllerNotAvailable { controller, path } => {
                out.append("controller ");
                out.append(debug_quoted(controller.as_str()).as_str());
                out.append(" not available at ");
                out.append(path.as_str());
            },
            CgroupError::ReadFailed { path, source } => {
                out.append("failed to read ");
                out.append(path.as_str());
                out.append(": ");
                out.append(source.as_str());
            },
            CgroupError::WriteFailed { path, source } => {
                out.append("failed to write ");
                out.append(path.as_str());
                out.append(": ");
                out.append(source.as_str());
            },
            CgroupError::ParseError { path, content, detail } => {
                out.append("failed to parse ");
                out.append(path.as_str());
                out.append(": ");
                out.append(detail.as_str());
                out.append(" (content: ");
                out.append(debug_quoted(content.as_str()).as_str());
                out.append(")");
            },
            CgroupError::InvalidValue { field, value, expected } => {
                out.append("invalid value for ");
                out.append(field.as_str());
                out.append(": ");
                out.append(debug_quoted(value.as_str()).as_str());
                out.append(" (expected ");
                out.append(expected.as_str());
                out.append(")");
            },
        }
        proof {
            lemma_empty_prefix();
        }
        out
    }
}

/// Nothing in front of a text leaves the text.
proof fn lemma_empty_prefix()
    ensures
        forall|s: Seq<char>| #[trigger] (Seq::<char>::empty() + s) == s,
{
    assert forall|s: Seq<char>| #[trigger] (Seq::<char>::empty() + s) == s by {
        assert(Seq::<char>::empty() + s =~= s);
    }
}

} // verus!
