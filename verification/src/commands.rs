//! The command surface: the handlers known at build time, the argument
//! payload of an invocation, and the application of a handler to a payload.

use vstd::prelude::*;
use vstd::string::*;

verus! {

use crate::errors::InvokeError;

/// A natively implemented handler. The set of handlers is known at build
/// time; the registry maps names onto it.
#[derive(Clone, Copy, Debug, PartialEq, Eq, Structural)]
pub enum CommandHandler {
    /// Pure string formatting: greets the caller by name.
    Greet,
}

/// The structured argument payload of one invocation: named fields, each a
/// string, in the order the caller supplied them.
pub struct InvokeArgs {
    pub fields: Vec<(String, String)>,
}

impl View for InvokeArgs {
    type V = Seq<(Seq<char>, Seq<char>)>;

    open spec fn view(&self) -> Seq<(Seq<char>, Seq<char>)> {
        self.fields@.map_values(|p: (String, String)| (p.0@, p.1@))
    }
}

/// The value of the first field named `key`, if any.
pub open spec fn arg_value(args: Seq<(Seq<char>, Seq<char>)>, key: Seq<char>) -> Option<Seq<char>>
    decreases args.len(),
{
    if args.len() == 0 {
        None
    } else if args[0].0 == key {
        Some(args[0].1)
    } else {
        arg_value(args.skip(1), key)
    }
}

impl InvokeArgs {
    /// An empty payload.
    pub fn new() -> (r: InvokeArgs)
        ensures
            r@ == Seq::<(Seq<char>, Seq<char>)>::empty(),
    {
        let r = InvokeArgs { fields: Vec::new() };
        proof {
            assert(r@ =~= Seq::<(Seq<char>, Seq<char>)>::empty());
        }
        r
    }

    /// Appends a named field.
    pub fn push_field(&mut self, key: String, value: String)
        ensures
            final(self)@ == old(self)@.push((key@, value@)),
    {
        let ghost key_view = key@;
        let ghost value_view = value@;
        self.fields.push((key, value));
        proof {
            assert(final(self)@ =~= old(self)@.push((key_view, value_view)));
        }
    }

    /// Looks up the first field named `key`.
    pub fn get(&self, key: &str) -> (r: Option<&String>)
        ensures
            match r {
                Some(v) => arg_value(self@, key@) == Some(v@),
                None => arg_value(self@, key@) is None,
            },
    {
        let wanted = key.to_owned();
        let n = self.fields.len();
        let mut i: usize = 0;
        proof {
            assert(self@.skip(0) =~= self@);
        }
        while i < n
            invariant
                n == self.fields.len(),
                0 <= i <= n,
                wanted@ == key@,
                arg_value(self@, key@) == arg_value(self@.skip(i as int), key@),
            decreases n - i,
        {
            proof {
                assert(self@.len() == self.fields@.len());
                assert(self@[i as int] == (self.fields@[i as int].0@, self.fields@[i as int].1@));
                assert(self@.skip(i as int).len() == self@.len() - i);
                assert(self@.skip(i as int)[0] == self@[i as int]);
                assert(self@.skip(i as int).skip(1) =~= self@.skip(i as int + 1));
            }
            let matched = self.fields[i].0 == wanted;
            if matched {
                proof {
                    assert(self@.skip(i as int)[0].0 == key@);
                    assert(arg_value(self@.skip(i as int), key@) == Some(self@[i as int].1));
                }
                return Some(&self.fields[i].1);
            }
            i = i + 1;
        }
        proof {
            assert(self@.skip(n as int) =~= Seq::<(Seq<char>, Seq<char>)>::empty());
        }
        None
    }
}

/// The text `greet` returns for a given name.
pub open spec fn greeting_of(name: Seq<char>) -> Seq<char> {
    "Hello, "@ + name + "! You've been greeted from Rust!"@
}

/// The one registered command: pure formatting with no side effects.
pub fn greet(name: &str) -> (r: String)
    ensures
        r@ == greeting_of(name@),
{
    let mut s = "Hello, ".to_owned();
    s.append(name);
    s.append("! You've been greeted from Rust!");
    s
}

/// What applying a handler to a payload yields: the decoded arguments are
/// handed to the handler, and a payload of the wrong shape is refused.
pub open spec fn handler_result(h: CommandHandler, args: Seq<(Seq<char>, Seq<char>)>) -> Result<
    Seq<char>,
    InvokeError,
> {
    match h {
        CommandHandler::Greet => match arg_value(args, "name"@) {
            Some(n) => Ok(greeting_of(n)),
            None => Err(InvokeError::ArgumentDecode),
        },
    }
}

/// Decodes the payload for `h` and runs it.
pub fn apply_handler(h: &CommandHandler, args: &InvokeArgs) -> (r: Result<String, InvokeError>)
    ensures
        match r {
            Ok(v) => handler_result(*h, args@) == Result::<Seq<char>, InvokeError>::Ok(v@),
            Err(e) => handler_result(*h, args@) == Result::<Seq<char>, InvokeError>::Err(e),
        },
{
    match h {
        CommandHandler::Greet => match args.get("name") {
            Some(n) => Ok(greet(n.as_str())),
            None => Err(InvokeError::ArgumentDecode),
        },
    }
}

/// Law: the greeting determines the name it was built from, so the result of
/// one `greet` invocation can never be mistaken for that of another with a
/// different argument.
pub proof fn lemma_greeting_identifies_input(n1: Seq<char>, n2: Seq<char>)
    requires
        greeting_of(n1) == greeting_of(n2),
    ensures
        n1 == n2,
{
    let h = "Hello, "@;
    let t = "! You've been greeted from Rust!"@;
    assert(greeting_of(n1).len() == h.len() + n1.len() + t.len());
    assert(greeting_of(n2).len() == h.len() + n2.len() + t.len());
    assert(n1.len() == n2.len());
    assert forall|i: int| 0 <= i < n1.len() implies n1[i] == n2[i] by {
        assert(greeting_of(n1)[h.len() + i] == n1[i]);
        assert(greeting_of(n2)[h.len() + i] == n2[i]);
    }
    assert(n1 =~= n2);
}

} // verus!
