//! The structured commit message: a `(type, scope, subject, body)` record
//! and its rendering to the single string handed to the version-control
//! tool.

use vstd::prelude::*;
use crate::text::{is_blank, trimmed, trim_str, str_is_blank};

verus! {

/// A structured commit message.  The scope and body are optional; the
/// subject is required to be non-blank before any command is built from the
/// message.
pub struct CommitMessage {
    pub ctype: String,
    pub scope: String,
    pub subject: String,
    pub body: String,
}

/// Spec-level model of a commit message: the four parts as character
/// sequences.
#[verifier::ext_equal]
pub struct MsgModel {
    pub ctype: Seq<char>,
    pub scope: Seq<char>,
    pub subject: Seq<char>,
    pub body: Seq<char>,
}

impl MsgModel {
    /// A message is valid exactly when its subject is non-blank after
    /// trimming.
    pub open spec fn is_valid(self) -> bool {
        !is_blank(self.subject)
    }

    /// The rendered form: `type` then `(scope)` if the trimmed scope is
    /// non-empty, then `: subject`, then a blank line and the trimmed body
    /// if that is non-empty.
    pub open spec fn rendered(self) -> Seq<char> {
        self.ctype + (if is_blank(self.scope) {
            Seq::<char>::empty()
        } else {
            "("@ + trimmed(self.scope) + ")"@
        }) + ": "@ + trimmed(self.subject) + (if is_blank(self.body) {
            Seq::<char>::empty()
        } else {
            "\n\n"@ + trimmed(self.body)
        })
    }
}

impl View for CommitMessage {
    type V = MsgModel;

    open spec fn view(&self) -> MsgModel {
        MsgModel { ctype: self.ctype@, scope: self.scope@, subject: self.subject@, body: self.body@ }
    }
}

impl CommitMessage {
    /// Executable validity check.
    pub fn check_valid(&self) -> (r: bool)
        ensures
            r == self@.is_valid(),
    {
        !str_is_blank(self.subject.as_str())
    }

    /// Builds the single commit-message string.
    pub fn render(&self) -> (r: String)
        ensures
            r@ == self@.rendered(),
    {
        let mut m = self.ctype.clone();
        let sc = trim_str(self.scope.as_str());
        if !sc.as_str().is_empty() {
            m.append("(");
            m.append(sc.as_str());
            m.append(")");
        }
        m.append(": ");
        let su = trim_str(self.subject.as_str());
        m.append(su.as_str());
        let bo = trim_str(self.body.as_str());
        if !bo.as_str().is_empty() {
            m.append("\n\n");
            m.append(bo.as_str());
        }
        m
    }
}

} // verus!
