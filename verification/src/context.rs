use vstd::prelude::*;

verus! {

/// One positional argument as the host runtime handed it over: absent,
/// carrying a textual payload, or carrying a value of some other,
/// non-textual shape.
///
/// Only textual arguments are decodable; a non-textual argument is
/// deliberately treated like an absent one by the decoder.
#[derive(Debug)]
pub enum ArgValue {
    Absent,
    Text(String),
    Other,
}

impl ArgValue {
    /// The textual payload this argument carries, if any.
    pub open spec fn payload(self) -> Option<Seq<char>> {
        match self {
            ArgValue::Text(s) => Some(s@),
            _ => None,
        }
    }
}

/// The positional arguments of one host invocation. Built once per call,
/// read by the decoder, and discarded when the handler returns.
#[derive(Debug)]
pub struct CallContext {
    pub args: Vec<ArgValue>,
}

impl CallContext {
    /// The payload of the argument at `index`: `Some` exactly when that
    /// position exists and carries text. A position past the end of the
    /// argument list, an absent argument, and a non-textual argument all
    /// give `None`.
    pub open spec fn arg_payload(self, index: int) -> Option<Seq<char>> {
        if 0 <= index < self.args@.len() {
            self.args@[index].payload()
        } else {
            None
        }
    }

    pub fn new(args: Vec<ArgValue>) -> (ctx: CallContext)
        ensures
            ctx.args@ == args@,
    {
        CallContext { args }
    }

    /// Look up the textual payload of the argument at `index`.
    pub fn argument_payload(&self, index: usize) -> (r: Option<&String>)
        ensures
            match r {
                Some(s) => self.arg_payload(index as int) == Some(s@),
                None => self.arg_payload(index as int) is None,
            },
    {
        if index < self.args.len() {
            match &self.args[index] {
                ArgValue::Text(s) => Some(s),
                _ => None,
            }
        } else {
            None
        }
    }
}

} // verus!
