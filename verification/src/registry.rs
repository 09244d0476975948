//! The command registry: the authoritative mapping from command name to
//! handler, built once at bootstrap, and the dispatch of invocations.

use vstd::prelude::*;
use vstd::string::*;

verus! {

use crate::commands::CommandHandler;
use crate::commands::InvokeArgs;
use crate::commands::handler_result;
use crate::errors::InvokeError;
use crate::errors::RegistryError;

/// One registration: a name bound to a handler.
pub struct CommandEntry {
    pub name: String,
    pub handler: CommandHandler,
}

/// The registry. Its view is the sequence of registrations in the order they
/// were made; `register` keeps the names distinct.
pub struct CommandRegistry {
    entries: Vec<CommandEntry>,
}

impl View for CommandRegistry {
    type V = Seq<(Seq<char>, CommandHandler)>;

    closed spec fn view(&self) -> Seq<(Seq<char>, CommandHandler)> {
        self.entries@.map_values(|e: CommandEntry| (e.name@, e.handler))
    }
}

/// Whether some registration in `s` carries the name `n`.
pub open spec fn contains_name(s: Seq<(Seq<char>, CommandHandler)>, n: Seq<char>) -> bool {
    exists|i: int| 0 <= i < s.len() && s[i].0 == n
}

/// All registered names are distinct: the registry invariant.
pub open spec fn distinct_names(s: Seq<(Seq<char>, CommandHandler)>) -> bool {
    forall|i: int, j: int| 0 <= i < j < s.len() ==> s[i].0 != s[j].0
}

/// What a registration does: a taken name is refused and the registry is left
/// unchanged; a fresh name is appended.
pub open spec fn register_outcome(
    s: Seq<(Seq<char>, CommandHandler)>,
    n: Seq<char>,
    h: CommandHandler,
) -> (Seq<(Seq<char>, CommandHandler)>, Result<(), RegistryError>) {
    if contains_name(s, n) {
        (s, Err(RegistryError::DuplicateCommand))
    } else {
        (s.push((n, h)), Ok(()))
    }
}

/// The handler of the first registration named `n`, if any.
pub open spec fn lookup_handler(s: Seq<(Seq<char>, CommandHandler)>, n: Seq<char>) -> Option<
    CommandHandler,
>
    decreases s.len(),
{
    if s.len() == 0 {
        None
    } else if s[0].0 == n {
        Some(s[0].1)
    } else {
        lookup_handler(s.skip(1), n)
    }
}

/// What an invocation yields: an unknown name is refused, otherwise the
/// registered handler is applied to the payload.
pub open spec fn invoke_result(
    s: Seq<(Seq<char>, CommandHandler)>,
    n: Seq<char>,
    args: Seq<(Seq<char>, Seq<char>)>,
) -> Result<Seq<char>, InvokeError> {
    match lookup_handler(s, n) {
        Some(h) => handler_result(h, args),
        None => Err(InvokeError::UnknownCommand),
    }
}

impl CommandRegistry {
    /// Whether the names are distinct; `new` establishes it and `register`
    /// preserves it.
    pub open spec fn wf(&self) -> bool {
        distinct_names(self@)
    }

    /// An empty registry.
    pub fn new() -> (r: CommandRegistry)
        ensures
            r@ == Seq::<(Seq<char>, CommandHandler)>::empty(),
            r.wf(),
    {
        let r = CommandRegistry { entries: Vec::new() };
        proof {
            assert(r@ =~= Seq::<(Seq<char>, CommandHandler)>::empty());
        }
        r
    }

    /// Looks for a registration named `name`.
    pub fn contains(&self, name: &str) -> (b: bool)
        ensures
            b == contains_name(self@, name@),
    {
        let wanted = name.to_owned();
        let n = self.entries.len();
        let mut i: usize = 0;
        while i < n
            invariant
                n == self.entries.len(),
                0 <= i <= n,
                wanted@ == name@,
                forall|k: int| 0 <= k < i ==> self@[k].0 != name@,
            decreases n - i,
        {
            proof {
                assert(self@[i as int] == (self.entries@[i as int].name@, self.entries@[i as int].handler));
            }
            let matched = self.entries[i].name == wanted;
            if matched {
                return true;
            }
            i = i + 1;
        }
        false
    }

    /// Adds a registration, refusing a name that is already taken. Must be
    /// called only during bootstrap, before dispatch begins.
    pub fn register(&mut self, name: String, handler: CommandHandler) -> (r: Result<
        (),
        RegistryError,
    >)
        ensures
            final(self)@ == register_outcome(old(self)@, name@, handler).0,
            r == register_outcome(old(self)@, name@, handler).1,
            old(self).wf() ==> final(self).wf(),
    {
        if self.contains(name.as_str()) {
            return Err(RegistryError::DuplicateCommand);
        }
        let ghost name_view = name@;
        let ghost before = self@;
        self.entries.push(CommandEntry { name, handler });
        proof {
            assert(self@ =~= before.push((name_view, handler)));
            if distinct_names(before) {
                assert forall|i: int, j: int| 0 <= i < j < self@.len() implies self@[i].0
                    != self@[j].0 by {
                    if j == before.len() {
                        assert(!contains_name(before, name_view));
                        assert(self@[i] == before[i]);
                    }
                }
            }
        }
        Ok(())
    }

    /// Dispatches one invocation: looks the name up and applies the
    /// registered handler to the payload. Errors are returned to this caller
    /// alone; no other invocation and no process state is touched.
    pub fn invoke(&self, name: &str, args: &InvokeArgs) -> (r: Result<String, InvokeError>)
        ensures
            match r {
                Ok(v) => invoke_result(self@, name@, args@) == Result::<Seq<char>, InvokeError>::Ok(
                    v@,
                ),
                Err(e) => invoke_result(self@, name@, args@) == Result::<
                    Seq<char>,
                    InvokeError,
                >::Err(e),
            },
    {
        let wanted = name.to_owned();
        let n = self.entries.len();
        let mut i: usize = 0;
        proof {
            assert(self@.skip(0) =~= self@);
        }
        while i < n
            invariant
                n == self.entries.len(),
                0 <= i <= n,
                wanted@ == name@,
                lookup_handler(self@, name@) == lookup_handler(self@.skip(i as int), name@),
            decreases n - i,
        {
            proof {
                assert(self@[i as int] == (self.entries@[i as int].name@, self.entries@[i as int].handler));
                assert(self@.skip(i as int).len() == self@.len() - i);
                assert(self@.skip(i as int)[0] == self@[i as int]);
                assert(self@.skip(i as int).skip(1) =~= self@.skip(i as int + 1));
            }
            let matched = self.entries[i].name == wanted;
            if matched {
                proof {
                    assert(lookup_handler(self@.skip(i as int), name@) == Some(
                        self@[i as int].1,
                    ));
                }
                return apply_registered(&self.entries[i].handler, args);
            }
            i = i + 1;
        }
        proof {
            assert(self@.skip(n as int) =~= Seq::<(Seq<char>, CommandHandler)>::empty());
        }
        Err(InvokeError::UnknownCommand)
    }
}

/// Applies the handler found for an invocation; split out so the dispatch
/// loop stays small.
fn apply_registered(h: &CommandHandler, args: &InvokeArgs) -> (r: Result<String, InvokeError>)
    ensures
        match r {
            Ok(v) => handler_result(*h, args@) == Result::<Seq<char>, InvokeError>::Ok(v@),
            Err(e) => handler_result(*h, args@) == Result::<Seq<char>, InvokeError>::Err(e),
        },
{
    crate::commands::apply_handler(h, args)
}

/// Builds the registry this application ships: the single `greet` command.
pub fn default_registry() -> (r: CommandRegistry)
    ensures
        r@ == seq![("greet"@, CommandHandler::Greet)],
        r.wf(),
{
    let mut r = CommandRegistry::new();
    let ghost empty = r@;
    let outcome = r.register("greet".to_owned(), CommandHandler::Greet);
    proof {
        assert(!contains_name(empty, "greet"@));
        assert(r@ =~= seq![("greet"@, CommandHandler::Greet)]);
    }
    if outcome.is_err() {
        // Unreachable: the registry was empty, so the name was fresh.
        proof {
            assert(false);
        }
    }
    r
}

/// The first registration named `n` is found, and under distinct names it is
/// the only one: lookup yields exactly the handler registered under `n`.
proof fn lemma_lookup_finds(s: Seq<(Seq<char>, CommandHandler)>, i: int)
    requires
        distinct_names(s),
        0 <= i < s.len(),
    ensures
        lookup_handler(s, s[i].0) == Some(s[i].1),
    decreases s.len(),
{
    if i == 0 {
    } else {
        assert(s[0].0 != s[i].0);
        assert(distinct_names(s.skip(1))) by {
            assert forall|p: int, q: int| 0 <= p < q < s.skip(1).len() implies s.skip(1)[p].0
                != s.skip(1)[q].0 by {
                assert(s.skip(1)[p] == s[p + 1]);
                assert(s.skip(1)[q] == s[q + 1]);
            }
        }
        assert(s.skip(1)[i - 1] == s[i]);
        lemma_lookup_finds(s.skip(1), i - 1);
    }
}

/// A name that no registration carries is never found.
proof fn lemma_lookup_absent(s: Seq<(Seq<char>, CommandHandler)>, n: Seq<char>)
    requires
        !contains_name(s, n),
    ensures
        lookup_handler(s, n) is None,
    decreases s.len(),
{
    if s.len() > 0 {
        assert(s[0].0 != n);
        assert(!contains_name(s.skip(1), n)) by {
            if contains_name(s.skip(1), n) {
                let i = choose|i: int| 0 <= i < s.skip(1).len() && s.skip(1)[i].0 == n;
                assert(s[i + 1].0 == n);
            }
        }
        lemma_lookup_absent(s.skip(1), n);
    }
}

/// Law: in a registry with distinct names, invoking the name of a
/// registration dispatches to exactly the handler registered under it.
pub proof fn lemma_invoke_reaches_registered(
    s: Seq<(Seq<char>, CommandHandler)>,
    i: int,
    args: Seq<(Seq<char>, Seq<char>)>,
)
    requires
        distinct_names(s),
        0 <= i < s.len(),
    ensures
        invoke_result(s, s[i].0, args) == handler_result(s[i].1, args),
{
    lemma_lookup_finds(s, i);
}

/// Law: registering a name a second time always fails with
/// `DuplicateCommand` and leaves the registry unchanged, whatever else was
/// registered in between the attempt and the first registration.
pub proof fn lemma_register_twice(
    s: Seq<(Seq<char>, CommandHandler)>,
    n: Seq<char>,
    h1: CommandHandler,
    h2: CommandHandler,
)
    ensures
        register_outcome(register_outcome(s, n, h1).0, n, h2).1 == Result::<
            (),
            RegistryError,
        >::Err(RegistryError::DuplicateCommand),
        register_outcome(register_outcome(s, n, h1).0, n, h2).0 == register_outcome(s, n, h1).0,
{
    let s1 = register_outcome(s, n, h1).0;
    if contains_name(s, n) {
        assert(s1 == s);
    } else {
        assert(s1 == s.push((n, h1)));
        assert(s1[s.len() as int].0 == n);
        assert(contains_name(s1, n));
    }
}

/// Law: invoking a name under which nothing is registered always fails with
/// `UnknownCommand`; no handler is reached, whatever the payload.
pub proof fn lemma_unknown_command(
    s: Seq<(Seq<char>, CommandHandler)>,
    n: Seq<char>,
    args: Seq<(Seq<char>, Seq<char>)>,
)
    requires
        !contains_name(s, n),
    ensures
        invoke_result(s, n, args) == Result::<Seq<char>, InvokeError>::Err(
            InvokeError::UnknownCommand,
        ),
{
    lemma_lookup_absent(s, n);
}

} // verus!
