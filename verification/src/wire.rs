//! Message bodies as they travel over the session bus, and the description of
//! one method call.

use crate::text::same_text;
use vstd::prelude::*;
use vstd::std_specs::cmp::PartialEqSpecImpl;

verus! {

/// One argument in the body of a bus message.
#[derive(Debug)]
pub enum Arg {
    /// A string argument.
    Text(String),
    /// An unsigned 32-bit argument.
    Number(u32),
    /// An argument of a type that the protocol does not use.
    Other,
}

/// What an [`Arg`] stands for.
pub enum ArgView {
    Text(Seq<char>),
    Number(u32),
    Other,
}

impl View for Arg {
    type V = ArgView;

    open spec fn view(&self) -> ArgView {
        match self {
            Arg::Text(s) => ArgView::Text(s@),
            Arg::Number(n) => ArgView::Number(*n),
            Arg::Other => ArgView::Other,
        }
    }
}

impl Clone for Arg {
    fn clone(&self) -> (r: Arg)
        ensures
            r@ == self@,
    {
        match self {
            Arg::Text(s) => Arg::Text(s.clone()),
            Arg::Number(n) => Arg::Number(*n),
            Arg::Other => Arg::Other,
        }
    }
}

impl PartialEq for Arg {
    fn eq(&self, other: &Arg) -> (r: bool) {
        match (self, other) {
            (Arg::Text(a), Arg::Text(b)) => same_text(a.as_str(), b.as_str()),
            (Arg::Number(a), Arg::Number(b)) => *a == *b,
            (Arg::Other, Arg::Other) => true,
            _ => false,
        }
    }
}

impl PartialEqSpecImpl for Arg {
    open spec fn obeys_eq_spec() -> bool {
        true
    }

    open spec fn eq_spec(&self, other: &Arg) -> bool {
        self@ == other@
    }
}

/// The body of a bus message: its arguments in order.
#[derive(Debug)]
pub struct Payload {
    pub args: Vec<Arg>,
}

impl View for Payload {
    type V = Seq<ArgView>;

    open spec fn view(&self) -> Seq<ArgView> {
        Seq::new(self.args@.len(), |i: int| self.args@[i]@)
    }
}

/// The text of the first argument of `body`, where there is one and it is a
/// string.
pub open spec fn first_text(body: Seq<ArgView>) -> Option<Seq<char>> {
    if body.len() > 0 {
        match body[0] {
            ArgView::Text(s) => Some(s),
            _ => None,
        }
    } else {
        None
    }
}

/// The value of the first argument of `body`, where there is one and it is a
/// number.
pub open spec fn first_number(body: Seq<ArgView>) -> Option<u32> {
    if body.len() > 0 {
        match body[0] {
            ArgView::Number(n) => Some(n),
            _ => None,
        }
    } else {
        None
    }
}

impl Payload {
    /// A body without arguments.
    pub fn empty() -> (r: Payload)
        ensures
            r@ == Seq::<ArgView>::empty(),
    {
        let r = Payload { args: Vec::new() };
        assert(r@ =~= Seq::<ArgView>::empty());
        r
    }

    /// A body whose only argument is the string `s`.
    pub fn text(s: String) -> (r: Payload)
        ensures
            r@ == seq![ArgView::Text(s@)],
    {
        let mut args: Vec<Arg> = Vec::new();
        args.push(Arg::Text(s));
        let r = Payload { args };
        assert(r@ =~= seq![ArgView::Text(s@)]);
        r
    }

    /// A body whose only argument is the number `n`.
    pub fn number(n: u32) -> (r: Payload)
        ensures
            r@ == seq![ArgView::Number(n)],
    {
        let mut args: Vec<Arg> = Vec::new();
        args.push(Arg::Number(n));
        let r = Payload { args };
        assert(r@ =~= seq![ArgView::Number(n)]);
        r
    }

    /// A body of a string followed by a number.
    pub fn text_and_number(s: String, n: u32) -> (r: Payload)
        ensures
            r@ == seq![ArgView::Text(s@), ArgView::Number(n)],
    {
        let mut args: Vec<Arg> = Vec::new();
        args.push(Arg::Text(s));
        args.push(Arg::Number(n));
        let r = Payload { args };
        assert(r@ =~= seq![ArgView::Text(s@), ArgView::Number(n)]);
        r
    }

    /// The first argument as a string. `None` where the body is empty or
    /// begins with an argument of another type; later arguments are not
    /// looked at.
    pub fn first_text(&self) -> (r: Option<&str>)
        ensures
            (r is Some) == (first_text(self@) is Some),
            r matches Some(s) ==> first_text(self@) == Some(s@),
    {
        if self.args.len() == 0 {
            return None;
        }
        match &self.args[0] {
            Arg::Text(s) => Some(s.as_str()),
            _ => None,
        }
    }

    /// The first argument as a number. `None` where the body is empty or
    /// begins with an argument of another type; later arguments are not
    /// looked at.
    pub fn first_number(&self) -> (r: Option<u32>)
        ensures
            r == first_number(self@),
    {
        if self.args.len() == 0 {
            return None;
        }
        match &self.args[0] {
            Arg::Number(n) => Some(*n),
            _ => None,
        }
    }
}

impl Clone for Payload {
    fn clone(&self) -> (r: Payload)
        ensures
            r@ == self@,
    {
        let mut args: Vec<Arg> = Vec::new();
        let n: usize = self.args.len();
        let mut i: usize = 0;
        while i < n
            invariant
                n == self.args@.len(),
                i <= n,
                args@.len() == i,
                forall|j: int| 0 <= j < i ==> args@[j]@ == self.args@[j]@,
            decreases n - i,
        {
            args.push(self.args[i].clone());
            i += 1;
        }
        let r = Payload { args };
        assert(r@ =~= self@);
        r
    }
}

impl PartialEq for Payload {
    fn eq(&self, other: &Payload) -> (r: bool) {
        let n: usize = self.args.len();
        if n != other.args.len() {
            assert(self@.len() != other@.len());
            return false;
        }
        let mut i: usize = 0;
        while i < n
            invariant
                n == self.args@.len(),
                n == other.args@.len(),
                i <= n,
                forall|j: int| 0 <= j < i ==> self.args@[j]@ == other.args@[j]@,
            decreases n - i,
        {
            if !(self.args[i] == other.args[i]) {
                assert(self@[i as int] != other@[i as int]);
                return false;
            }
            i += 1;
        }
        assert(self@ =~= other@);
        true
    }
}

impl PartialEqSpecImpl for Payload {
    open spec fn obeys_eq_spec() -> bool {
        true
    }

    open spec fn eq_spec(&self, other: &Payload) -> bool {
        self@ == other@
    }
}

/// One method call to place on the bus.
#[derive(Debug)]
pub struct CallRequest {
    /// The bus name of the service that is called.
    pub destination: String,
    /// The path of the object that is called.
    pub object_path: String,
    /// The interface that declares the method.
    pub interface: String,
    /// The method's name.
    pub method: String,
    /// The arguments.
    pub body: Payload,
    /// The type signature that the reply must have, where one is demanded.
    pub reply_signature: Option<String>,
    /// How long to wait for the reply, in milliseconds; a negative value
    /// leaves the limit to the bus.
    pub timeout_ms: i32,
}

/// What a [`CallRequest`] stands for.
pub struct CallRequestView {
    pub destination: Seq<char>,
    pub object_path: Seq<char>,
    pub interface: Seq<char>,
    pub method: Seq<char>,
    pub body: Seq<ArgView>,
    pub reply_signature: Option<Seq<char>>,
    pub timeout_ms: int,
}

impl View for CallRequest {
    type V = CallRequestView;

    open spec fn view(&self) -> CallRequestView {
        CallRequestView {
            destination: self.destination@,
            object_path: self.object_path@,
            interface: self.interface@,
            method: self.method@,
            body: self.body@,
            reply_signature: match self.reply_signature {
                Some(s) => Some(s@),
                None => None,
            },
            timeout_ms: self.timeout_ms as int,
        }
    }
}

} // verus!
