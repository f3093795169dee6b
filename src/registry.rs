use crate::commands::{Changelog, Ping, Unknown, CHANGELOG_LINK, FAQ, FAQ_LINK, PONG};
use crate::reply::{Payload, Reply};
use crate::text::str_eq;
use crate::whereis::{normalized, whereis_answer, WhereIs};
use vstd::prelude::*;

verus! {

/// One handler per supported command, plus the fallback.
#[derive(Clone, Copy, Debug, PartialEq, Eq, Structural)]
pub enum Command {
    Ping,
    Faq,
    Changelog,
    WhereIs,
    Unknown,
}

impl Command {
    /// The name under which the command registers itself.
    pub open spec fn name(self) -> Seq<char> {
        match self {
            Command::Ping => "ping"@,
            Command::Faq => "faq"@,
            Command::Changelog => "changelog"@,
            Command::WhereIs => "whereis"@,
            Command::Unknown => "unknown"@,
        }
    }

    /// What the command answers to the argument `data`.
    pub open spec fn answer(self, data: Seq<char>) -> Payload {
        match self {
            Command::Ping => Payload::Text(PONG@),
            Command::Faq => Payload::Markdown(FAQ_LINK@),
            Command::Changelog => Payload::Markdown(CHANGELOG_LINK@),
            Command::WhereIs => Payload::Markdown(whereis_answer(normalized(data))),
            Command::Unknown => Payload::Silent,
        }
    }

    /// The name under which the command registers itself.
    pub fn get_command_name(&self) -> (r: String)
        ensures
            r@ == self.name(),
    {
        match self {
            Command::Ping => Ping::get_command_name(),
            Command::Faq => FAQ::get_command_name(),
            Command::Changelog => Changelog::get_command_name(),
            Command::WhereIs => WhereIs::get_command_name(),
            Command::Unknown => Unknown::get_command_name(),
        }
    }

    /// Runs the command's handler on the argument `data`.
    pub fn run(&self, data: &str) -> (r: Reply)
        ensures
            r@ == self.answer(data@),
    {
        match self {
            Command::Ping => Ping::handle_message(data),
            Command::Faq => FAQ::handle_message(data),
            Command::Changelog => Changelog::handle_message(data),
            Command::WhereIs => WhereIs::handle_message(data),
            Command::Unknown => Unknown::handle_message(data),
        }
    }
}

/// The map that a list of entries describes, a later entry for a name
/// replacing an earlier one.
pub open spec fn table_map(t: Seq<(Seq<char>, Command)>) -> Map<Seq<char>, Command>
    decreases t.len(),
{
    if t.len() == 0 {
        Map::empty()
    } else {
        table_map(t.drop_last()).insert(t.last().0, t.last().1)
    }
}

/// No name occurs twice in `t`.
pub open spec fn names_distinct(t: Seq<(Seq<char>, Command)>) -> bool {
    forall|i: int, j: int|
        0 <= i < t.len() && 0 <= j < t.len() && i != j ==> #[trigger] t[i].0 != #[trigger] t[j].0
}

/// The command that a registry maps `name` to: its entry, or the fallback.
pub open spec fn resolve(m: Map<Seq<char>, Command>, name: Seq<char>) -> Command {
    if m.contains_key(name) {
        m[name]
    } else {
        Command::Unknown
    }
}

/// The registry that [`Handler::new`] builds.
pub open spec fn registered() -> Map<Seq<char>, Command> {
    Map::empty().insert(Command::WhereIs.name(), Command::WhereIs).insert(
        Command::Faq.name(),
        Command::Faq,
    ).insert(Command::Changelog.name(), Command::Changelog).insert(
        Command::Ping.name(),
        Command::Ping,
    )
}

/// With distinct names, the map of `t` holds exactly the names of `t`,
/// each with its entry's command.
proof fn lemma_table_map(t: Seq<(Seq<char>, Command)>)
    requires
        names_distinct(t),
    ensures
        forall|k: Seq<char>|
            #[trigger] table_map(t).contains_key(k) <==> exists|i: int|
                0 <= i < t.len() && t[i].0 == k,
        forall|i: int| 0 <= i < t.len() ==> #[trigger] table_map(t)[t[i].0] == t[i].1,
    decreases t.len(),
{
    if t.len() > 0 {
        let u = t.drop_last();
        assert(names_distinct(u)) by {
            assert forall|i: int, j: int|
                0 <= i < u.len() && 0 <= j < u.len() && i != j implies #[trigger] u[i].0
                != #[trigger] u[j].0 by {
                assert(u[i] == t[i] && u[j] == t[j]);
            }
        }
        lemma_table_map(u);
        assert(table_map(t) == table_map(u).insert(t.last().0, t.last().1));
        assert forall|k: Seq<char>|
            #[trigger] table_map(t).contains_key(k) <==> exists|i: int|
                0 <= i < t.len() && t[i].0 == k by {
            if table_map(t).contains_key(k) && k != t.last().0 {
                assert(table_map(u).contains_key(k));
                let i = choose|i: int| 0 <= i < u.len() && u[i].0 == k;
                assert(t[i] == u[i]);
            }
            if exists|i: int| 0 <= i < t.len() && t[i].0 == k {
                let i = choose|i: int| 0 <= i < t.len() && t[i].0 == k;
                if i < u.len() {
                    assert(t[i] == u[i]);
                    assert(table_map(u).contains_key(u[i].0));
                }
            }
        }
        assert forall|i: int| 0 <= i < t.len() implies #[trigger] table_map(t)[t[i].0]
            == t[i].1 by {
            if i < u.len() {
                assert(t[i] == u[i]);
                assert(t[i].0 != t[t.len() - 1].0);
                assert(table_map(u)[u[i].0] == u[i].1);
            }
        }
    }
}

/// The registry of commands: each registered name maps to one handler, and
/// every other name to the fallback. It is built once and only read after.
pub struct Handler {
    command_list: Vec<(String, Command)>,
}

impl View for Handler {
    type V = Map<Seq<char>, Command>;

    open spec fn view(&self) -> Map<Seq<char>, Command> {
        table_map(self.entries())
    }
}

impl Handler {
    /// The entries as (name, command) pairs, in the order they were added.
    pub closed spec fn entries(&self) -> Seq<(Seq<char>, Command)> {
        self.command_list@.map_values(|e: (String, Command)| (e.0@, e.1))
    }

    /// Each name has one entry.
    pub closed spec fn wf(&self) -> bool {
        names_distinct(self.entries())
    }

    /// The position of `name` among the entries, if it has one.
    fn position(&self, name: &str) -> (r: Option<usize>)
        requires
            self.wf(),
        ensures
            match r {
                Some(i) => i < self.entries().len() && self.entries()[i as int].0 == name@,
                None => !self@.contains_key(name@),
            },
    {
        proof {
            lemma_table_map(self.entries());
        }
        let mut i: usize = 0;
        while i < self.command_list.len()
            invariant
                i <= self.command_list.len(),
                self.entries().len() == self.command_list.len(),
                forall|j: int| 0 <= j < i ==> self.entries()[j].0 != name@,
            decreases self.command_list.len() - i,
        {
            if str_eq(self.command_list[i].0.as_str(), name) {
                return Some(i);
            }
            i = i + 1;
        }
        None
    }

    /// Maps `name` to `command`, replacing an earlier entry for `name`.
    fn register(&mut self, name: String, command: Command)
        requires
            old(self).wf(),
        ensures
            final(self).wf(),
            final(self)@ == old(self)@.insert(name@, command),
    {
        let ghost t = self.entries();
        proof {
            lemma_table_map(t);
        }
        match self.position(name.as_str()) {
            Some(i) => {
                let ghost n = name@;
                self.command_list.set(i, (name, command));
                let ghost u = self.entries();
                assert(u =~= t.update(i as int, (n, command)));
                assert(names_distinct(u)) by {
                    assert forall|a: int, b: int|
                        0 <= a < u.len() && 0 <= b < u.len() && a != b implies #[trigger] u[a].0
                        != #[trigger] u[b].0 by {
                        assert(u[a].0 == t[a].0 && u[b].0 == t[b].0);
                    }
                }
                proof {
                    lemma_table_map(u);
                }
                assert(table_map(u) =~= table_map(t).insert(n, command)) by {
                    assert forall|k: Seq<char>| #[trigger]
                        table_map(u).contains_key(k) == table_map(t).insert(
                            n,
                            command,
                        ).contains_key(k) by {
                        if table_map(u).contains_key(k) {
                            let j = choose|j: int| 0 <= j < u.len() && u[j].0 == k;
                            assert(t[j].0 == k);
                        }
                        if table_map(t).contains_key(k) {
                            let j = choose|j: int| 0 <= j < t.len() && t[j].0 == k;
                            assert(u[j].0 == k);
                        }
                    }
                    assert forall|k: Seq<char>| #[trigger]
                        table_map(u).contains_key(k) implies table_map(u)[k] == table_map(
                        t,
                    ).insert(n, command)[k] by {
                        let j = choose|j: int| 0 <= j < u.len() && u[j].0 == k;
                        assert(table_map(u)[u[j].0] == u[j].1);
                        if j != i {
                            assert(table_map(t)[t[j].0] == t[j].1);
                        }
                    }
                }
            },
            None => {
                let ghost n = name@;
                self.command_list.push((name, command));
                let ghost u = self.entries();
                assert(u =~= t.push((n, command)));
                assert(u.drop_last() =~= t);
                assert(names_distinct(u)) by {
                    assert forall|a: int, b: int|
                        0 <= a < u.len() && 0 <= b < u.len() && a != b implies #[trigger] u[a].0
                        != #[trigger] u[b].0 by {
                        if a < t.len() && b < t.len() {
                            assert(u[a] == t[a] && u[b] == t[b]);
                        } else if a < t.len() {
                            assert(u[a] == t[a]);
                            assert(table_map(t).contains_key(t[a].0));
                        } else {
                            assert(u[b] == t[b]);
                            assert(table_map(t).contains_key(t[b].0));
                        }
                    }
                }
            },
        }
    }

    /// Builds the registry of the four commands: `whereis`, `faq`,
    /// `changelog` and `ping`.
    pub fn new() -> (r: Handler)
        ensures
            r.wf(),
            r@ == registered(),
    {
        let mut h = Handler { command_list: Vec::new() };
        assert(h.entries() =~= Seq::<(Seq<char>, Command)>::empty());
        assert(h@ =~= Map::<Seq<char>, Command>::empty());
        h.register(WhereIs::get_command_name(), Command::WhereIs);
        h.register(FAQ::get_command_name(), Command::Faq);
        h.register(Changelog::get_command_name(), Command::Changelog);
        h.register(Ping::get_command_name(), Command::Ping);
        h
    }

    /// The handler registered under `name`, compared exactly and
    /// case-sensitively, or the fallback where there is none.
    pub fn get_command(&self, name: &str) -> (r: Command)
        requires
            self.wf(),
        ensures
            r == resolve(self@, name@),
    {
        proof {
            lemma_table_map(self.entries());
        }
        match self.position(name) {
            Some(i) => self.command_list[i].1,
            None => Command::Unknown,
        }
    }

    /// Resolves `name` and runs its handler on `data`.
    pub fn dispatch(&self, name: &str, data: &str) -> (r: Reply)
        requires
            self.wf(),
        ensures
            r@ == resolve(self@, name@).answer(data@),
    {
        self.get_command(name).run(data)
    }
}

/// Every command of the registry that [`Handler::new`] builds is found
/// under its own name.
pub proof fn lemma_registered_resolve(c: Command)
    requires
        c != Command::Unknown,
    ensures
        registered().contains_key(c.name()),
        resolve(registered(), c.name()) == c,
{
    reveal_strlit("ping");
    reveal_strlit("faq");
    reveal_strlit("changelog");
    reveal_strlit("whereis");
    assert("ping"@.len() == 4 && "faq"@.len() == 3);
    assert("changelog"@.len() == 9 && "whereis"@.len() == 7);
}

/// A name that the registry of [`Handler::new`] does not hold resolves to
/// the fallback, which answers any argument with no outbound action.
pub proof fn lemma_unregistered_silent(name: Seq<char>, data: Seq<char>)
    requires
        !registered().contains_key(name),
    ensures
        resolve(registered(), name) == Command::Unknown,
        resolve(registered(), name).answer(data).actions() == 0,
{
}

/// The registry of [`Handler::new`] holds exactly the four command names.
pub proof fn lemma_registered_names(name: Seq<char>)
    ensures
        registered().contains_key(name) <==> (name == "ping"@ || name == "faq"@ || name
            == "changelog"@ || name == "whereis"@),
{
}

} // verus!
