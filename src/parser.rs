use vstd::prelude::*;

use crate::notification::ParsedCall;
use crate::trace::{classify_line, line_shape, LineShape, TraceLine};

verus! {

/// Argument position bound to the sending application's name.
pub const APP_NAME_INDEX: u64 = 0;

/// Argument position bound to the summary.
pub const SUMMARY_INDEX: u64 = 3;

/// Argument position bound to the body; an array at or after it ends the call.
pub const BODY_INDEX: u64 = 4;

impl View for ParsedCall {
    type V = CallFields;

    open spec fn view(&self) -> CallFields {
        CallFields { app_name: self.app_name@, summary: self.summary@, body: self.body@ }
    }
}

/// The fields of a parsed call, as characters.
pub struct CallFields {
    pub app_name: Seq<char>,
    pub summary: Seq<char>,
    pub body: Seq<char>,
}

/// The fields of the call in `r`, if any.
pub open spec fn fields_of(r: Option<ParsedCall>) -> Option<CallFields> {
    match r {
        Some(c) => Some(c@),
        None => None,
    }
}

/// The parser's state: whether a call is being read, the position of the next
/// argument, and the fields bound so far.
pub struct ParserState {
    pub in_call: bool,
    pub index: u64,
    pub fields: CallFields,
}

/// The state between calls.
pub open spec fn idle() -> ParserState {
    ParserState {
        in_call: false,
        index: 0,
        fields: CallFields { app_name: Seq::empty(), summary: Seq::empty(), body: Seq::empty() },
    }
}

/// The state right after a call header.
pub open spec fn call_opened() -> ParserState {
    ParserState { in_call: true, ..idle() }
}

/// The position after `i`; it stays put at the largest value.
pub open spec fn next_index(i: u64) -> u64 {
    if i < u64::MAX {
        (i + 1) as u64
    } else {
        i
    }
}

/// Binds string argument `v` at the current position and moves on.
pub open spec fn bind_text(p: ParserState, v: Seq<char>) -> ParserState {
    let f = p.fields;
    ParserState {
        in_call: true,
        index: next_index(p.index),
        fields: if p.index == APP_NAME_INDEX {
            CallFields { app_name: v, ..f }
        } else if p.index == SUMMARY_INDEX {
            CallFields { summary: v, ..f }
        } else if p.index == BODY_INDEX {
            CallFields { body: v, ..f }
        } else {
            f
        },
    }
}

/// An array at the current position completes the call.
pub open spec fn completes(p: ParserState) -> bool {
    p.index >= BODY_INDEX && (p.fields.app_name.len() > 0 || p.fields.summary.len() > 0)
}

/// One transition: the next state and the call completed by this line, if any.
pub open spec fn step(p: ParserState, shape: LineShape) -> (ParserState, Option<CallFields>) {
    match shape {
        LineShape::CallStart => (call_opened(), None),
        _ => if !p.in_call {
            (p, None)
        } else {
            match shape {
                LineShape::Text(v) => (bind_text(p, v), None),
                LineShape::Integer => (ParserState { index: next_index(p.index), ..p }, None),
                LineShape::ArrayOpen => if completes(p) {
                    (idle(), Some(p.fields))
                } else {
                    (ParserState { index: next_index(p.index), ..p }, None)
                },
                _ => (p, None),
            }
        },
    }
}

/// Reads the monitor's trace line by line and yields each completed call.
pub struct TraceParser {
    in_call: bool,
    index: u64,
    app_name: String,
    summary: String,
    body: String,
}

impl View for TraceParser {
    type V = ParserState;

    closed spec fn view(&self) -> ParserState {
        ParserState {
            in_call: self.in_call,
            index: self.index,
            fields: CallFields {
                app_name: self.app_name@,
                summary: self.summary@,
                body: self.body@,
            },
        }
    }
}

impl TraceParser {
    /// A parser between calls.
    pub fn new() -> (r: Self)
        ensures
            r@ == idle(),
    {
        TraceParser {
            in_call: false,
            index: 0,
            app_name: String::new(),
            summary: String::new(),
            body: String::new(),
        }
    }

    /// Drops any call in progress.
    pub fn reset(&mut self)
        ensures
            final(self)@ == idle(),
    {
        *self = TraceParser::new();
    }

    /// Whether a call is being read.
    pub fn in_call(&self) -> (r: bool)
        ensures
            r == self@.in_call,
    {
        self.in_call
    }

    /// Position of the next argument of the call being read.
    pub fn field_index(&self) -> (r: u64)
        ensures
            r == self@.index,
    {
        self.index
    }

    /// Feeds one raw trace line; returns the call it completes, if any.
    pub fn feed(&mut self, line: &str) -> (r: Option<ParsedCall>)
        ensures
            (final(self)@, fields_of(r)) == step(old(self)@, line_shape(line@)),
    {
        let shape = classify_line(line);
        match shape {
            TraceLine::CallStart => {
                *self = TraceParser::new();
                self.in_call = true;
                None
            },
            _ => {
                if !self.in_call {
                    return None;
                }
                let next = if self.index < u64::MAX {
                    self.index + 1
                } else {
                    self.index
                };
                match shape {
                    TraceLine::Text(v) => {
                        if self.index == APP_NAME_INDEX {
                            self.app_name = v;
                        } else if self.index == SUMMARY_INDEX {
                            self.summary = v;
                        } else if self.index == BODY_INDEX {
                            self.body = v;
                        }
                        self.index = next;
                        None
                    },
                    TraceLine::Integer => {
                        self.index = next;
                        None
                    },
                    TraceLine::ArrayOpen => {
                        if self.index >= BODY_INDEX && (self.app_name.unicode_len() > 0
                            || self.summary.unicode_len() > 0) {
                            let mut done = TraceParser::new();
                            std::mem::swap(self, &mut done);
                            Some(
                                ParsedCall {
                                    app_name: done.app_name,
                                    summary: done.summary,
                                    body: done.body,
                                },
                            )
                        } else {
                            self.index = next;
                            None
                        }
                    },
                    _ => None,
                }
            },
        }
    }
}

} // verus!
