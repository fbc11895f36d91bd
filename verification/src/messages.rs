//! Whom a message is addressed to, and which run belongs to which agent.

use vstd::prelude::*;
use crate::agents::MessageTarget;
use crate::model::{lemma_models_push, Model};
use crate::text::{contains, has_infix};

verus! {

/// What `regex::Regex::new` followed by `Regex::captures` gives for a
/// pattern and a text: `None` where the pattern is no regular expression;
/// else `Some(None)` where the text has no match; else the groups of the
/// first match, the whole match first, each absent where it took no part.
pub uninterp spec fn regex_captures(pattern: Seq<char>, text: Seq<char>) -> Option<
    Option<Seq<Option<Seq<char>>>>,
>;

/// Calls `regex::Regex::new` on the pattern and `Regex::captures` on the
/// text, and writes the groups out as text. The result is named
/// `regex_captures`. The documentation says that the groups of a match are
/// never none, since the whole match is among them.
#[verifier::external_body]
pub(crate) fn first_captures(pattern: &str, text: &str) -> (r: Option<
    Option<Vec<Option<String>>>,
>)
    ensures
        r.model() == regex_captures(pattern@, text@),
        r matches Some(Some(groups)) ==> groups.len() >= 1,
{
    let re = match regex::Regex::new(pattern) {
        Ok(re) => re,
        Err(_) => return None,
    };
    match re.captures(text) {
        Some(caps) => Some(Some(caps.iter().map(|m| m.map(|x| x.as_str().to_string())).collect())),
        None => Some(None),
    }
}

pub enum MessageTargetModel {
    AgentName(Seq<char>),
    RunId(Seq<char>),
}

impl Model for MessageTarget {
    type M = MessageTargetModel;

    open spec fn model(&self) -> MessageTargetModel {
        match self {
            MessageTarget::AgentName(n) => MessageTargetModel::AgentName(n@),
            MessageTarget::RunId(r) => MessageTargetModel::RunId(r@),
        }
    }
}

/// The pattern of a message to a run: `@`, an identifier of 36 hexadecimal
/// digits and hyphens, a colon, and the message.
pub open spec fn run_id_pattern() -> Seq<char> {
    "@([0-9a-f-]{36}):(.*)"@
}

/// The pattern of a mention: `@` and a name of word characters.
pub open spec fn mention_pattern() -> Seq<char> {
    "@(\\w+)"@
}

/// Group `i` of a match, absent where there is no such group.
pub open spec fn group(groups: Seq<Option<Seq<char>>>, i: int) -> Option<Seq<char>> {
    if 0 <= i < groups.len() {
        groups[i]
    } else {
        None
    }
}

fn group_text(groups: &Vec<Option<String>>, i: usize) -> (r: Option<String>)
    ensures
        r.model() == group(groups.model(), i as int),
{
    if i < groups.len() {
        assert(groups.model()[i as int] == groups@[i as int].model());
        match &groups[i] {
            Some(t) => Some(t.clone()),
            None => None,
        }
    } else {
        None
    }
}

/// Whether a mentioned name may be an agent: it is not shaped like the
/// identifier of a run, which has a hyphen and is 36 bytes long.
pub open spec fn is_agent_name(name: Seq<char>) -> bool {
    !has_infix(name, "-"@) || (vstd::utf8::encode_utf8(name).len() as usize) != 36
}

/// The target of a mention, given the groups of its match.
pub open spec fn mention_target(
    found: Option<Option<Seq<Option<Seq<char>>>>>,
    content: Seq<char>,
) -> Option<(MessageTargetModel, Seq<char>)> {
    match found {
        Some(Some(groups)) => match group(groups, 1) {
            Some(name) => if is_agent_name(name) {
                Some((MessageTargetModel::AgentName(name), content))
            } else {
                None
            },
            None => None,
        },
        _ => None,
    }
}

/// Whom a message is for and what is sent on. A message that holds `@`, the
/// identifier of a run and a colon goes to that run, and only what follows
/// the colon is sent on. Else a message that mentions a name goes to the
/// agent of that name, whole.
pub open spec fn message_target(content: Seq<char>) -> Option<(MessageTargetModel, Seq<char>)> {
    match regex_captures(run_id_pattern(), content) {
        None => None,
        Some(Some(groups)) => match group(groups, 1) {
            None => None,
            Some(id) => Some(
                (
                    MessageTargetModel::RunId(id),
                    match group(groups, 2) {
                        Some(m) => m,
                        None => Seq::empty(),
                    },
                ),
            ),
        },
        Some(None) => mention_target(regex_captures(mention_pattern(), content), content),
    }
}

/// The target of a mention, given the groups of its match.
pub fn target_of_mention(found: Option<Option<Vec<Option<String>>>>, content: &str) -> (r: Option<
    (MessageTarget, String),
>)
    ensures
        r.model() == mention_target(found.model(), content@),
{
    match found {
        Some(Some(groups)) => match group_text(&groups, 1) {
            Some(name) => {
                if !contains(name.as_str(), "-") || name.as_str().len() != 36 {
                    Some((MessageTarget::AgentName(name), content.to_owned()))
                } else {
                    None
                }
            },
            None => None,
        },
        _ => None,
    }
}

/// The unit that handles messages between agents.
#[derive(Clone, Copy, Debug)]
pub struct MessageMiddleware;

impl MessageMiddleware {
    /// Whom a message is for, and what is sent on.
    pub fn parse_message_target(content: &str) -> (r: Option<(MessageTarget, String)>)
        ensures
            r.model() == message_target(content@),
    {
        match first_captures("@([0-9a-f-]{36}):(.*)", content) {
            None => None,
            Some(Some(groups)) => match group_text(&groups, 1) {
                None => None,
                Some(id) => {
                    let message = match group_text(&groups, 2) {
                        Some(m) => m,
                        None => String::new(),
                    };
                    Some((MessageTarget::RunId(id), message))
                },
            },
            Some(None) => target_of_mention(first_captures("@(\\w+)", content), content),
        }
    }
}

/// The name that a message mentions first, given the groups of its match.
pub open spec fn mentioned(found: Option<Option<Seq<Option<Seq<char>>>>>) -> Option<Seq<char>> {
    match found {
        Some(Some(groups)) => group(groups, 1),
        _ => None,
    }
}

/// The name that a message mentions first.
pub fn parse_target_username(content: &str) -> (r: Option<String>)
    ensures
        r.model() == mentioned(regex_captures(mention_pattern(), content@)),
{
    match first_captures("@(\\w+)", content) {
        Some(Some(groups)) => group_text(&groups, 1),
        _ => None,
    }
}

/// Which project and agent each run belongs to.
pub struct RunIdMapping {
    entries: Vec<(String, (String, String))>,
}

/// The value kept for `key` in a list of entries, the first one that has
/// the key.
pub open spec fn kept(
    entries: Seq<(Seq<char>, (Seq<char>, Seq<char>))>,
    key: Seq<char>,
) -> Option<(Seq<char>, Seq<char>)>
    decreases entries.len(),
{
    if entries.len() == 0 {
        None
    } else if entries[0].0 == key {
        Some(entries[0].1)
    } else {
        kept(entries.drop_first(), key)
    }
}

/// Adding an entry at the end changes what is kept only for its key, and
/// for that only where nothing was kept.
pub proof fn lemma_kept_push(
    entries: Seq<(Seq<char>, (Seq<char>, Seq<char>))>,
    entry: (Seq<char>, (Seq<char>, Seq<char>)),
    key: Seq<char>,
)
    ensures
        kept(entries.push(entry), key) == (if kept(entries, key) is Some {
            kept(entries, key)
        } else if entry.0 == key {
            Some(entry.1)
        } else {
            None
        }),
    decreases entries.len(),
{
    if entries.len() > 0 {
        assert(entries.push(entry).drop_first() =~= entries.drop_first().push(entry));
        lemma_kept_push(entries.drop_first(), entry, key);
    } else {
        assert(entries.push(entry).drop_first() =~= entries);
    }
}

/// Changing the value of the entry at place `i` changes what is kept only
/// for its key.
pub proof fn lemma_kept_update(
    entries: Seq<(Seq<char>, (Seq<char>, Seq<char>))>,
    i: int,
    value: (Seq<char>, Seq<char>),
    key: Seq<char>,
)
    requires
        0 <= i < entries.len(),
        forall|j: int| 0 <= j < i ==> (#[trigger] entries[j]).0 != entries[i].0,
    ensures
        kept(entries.update(i, (entries[i].0, value)), key) == (if key == entries[i].0 {
            Some(value)
        } else {
            kept(entries, key)
        }),
    decreases entries.len(),
{
    let updated = entries.update(i, (entries[i].0, value));
    if i > 0 {
        assert(updated.drop_first() =~= entries.drop_first().update(
            i - 1,
            (entries.drop_first()[i - 1].0, value),
        ));
        let rest = entries.drop_first();
        assert forall|j: int| 0 <= j < i - 1 implies (#[trigger] rest[j]).0 != rest[i - 1].0 by {
            assert(rest[j] == entries[j + 1]);
        }
        lemma_kept_update(entries.drop_first(), i - 1, value, key);
        assert(entries[0].0 != entries[i].0);
    } else {
        assert(updated.drop_first() =~= entries.drop_first());
    }
}

/// Taking out the entry at place `i`, the only one with its key, changes
/// what is kept only for its key: nothing is kept for it.
pub proof fn lemma_kept_remove(
    entries: Seq<(Seq<char>, (Seq<char>, Seq<char>))>,
    i: int,
    key: Seq<char>,
)
    requires
        0 <= i < entries.len(),
        forall|j: int| 0 <= j < entries.len() && j != i ==> (#[trigger] entries[j]).0 != entries[i].0,
    ensures
        kept(entries.remove(i), key) == (if key == entries[i].0 {
            None
        } else {
            kept(entries, key)
        }),
    decreases entries.len(),
{
    if i > 0 {
        assert(entries.remove(i).drop_first() =~= entries.drop_first().remove(i - 1));
        let rest = entries.drop_first();
        assert forall|j: int| 0 <= j < rest.len() && j != i - 1 implies (#[trigger] rest[j]).0
            != rest[i - 1].0 by {
            assert(rest[j] == entries[j + 1]);
        }
        lemma_kept_remove(entries.drop_first(), i - 1, key);
        assert(entries.remove(i)[0] == entries[0]);
    } else {
        assert(entries.remove(0) =~= entries.drop_first());
        lemma_kept_absent(entries.drop_first(), entries[0].0);
    }
}

/// Nothing is kept for a key that no entry has.
pub proof fn lemma_kept_absent(entries: Seq<(Seq<char>, (Seq<char>, Seq<char>))>, key: Seq<char>)
    requires
        forall|j: int| 0 <= j < entries.len() ==> (#[trigger] entries[j]).0 != key,
    ensures
        kept(entries, key) is None,
    decreases entries.len(),
{
    if entries.len() > 0 {
        let rest = entries.drop_first();
        assert forall|j: int| 0 <= j < rest.len() implies (#[trigger] rest[j]).0 != key by {
            assert(rest[j] == entries[j + 1]);
        }
        lemma_kept_absent(entries.drop_first(), key);
    }
}

impl RunIdMapping {
    /// Whether every run has at most one entry.
    pub closed spec fn wf(&self) -> bool {
        forall|i: int, j: int|
            0 <= i < j < self.entries.len() ==> self.entries@[i].0@ != self.entries@[j].0@
    }

    /// The project and agent of a run, where they are known.
    pub closed spec fn get(&self, run_id: Seq<char>) -> Option<(Seq<char>, Seq<char>)> {
        kept(self.entries.model(), run_id)
    }

    /// A mapping that knows no run.
    pub fn new() -> (r: Self)
        ensures
            r.wf(),
            forall|id: Seq<char>| r.get(id) is None,
    {
        let r = RunIdMapping { entries: Vec::new() };
        assert(r.entries.model() =~= Seq::<(Seq<char>, (Seq<char>, Seq<char>))>::empty());
        r
    }

    fn position(&self, run_id: &str) -> (r: Option<usize>)
        ensures
            match r {
                Some(i) => i < self.entries.len() && self.entries@[i as int].0@ == run_id@,
                None => forall|i: int|
                    0 <= i < self.entries.len() ==> self.entries@[i].0@ != run_id@,
            },
    {
        let mut i: usize = 0;
        while i < self.entries.len()
            invariant
                i <= self.entries.len(),
                forall|k: int| 0 <= k < i ==> self.entries@[k].0@ != run_id@,
            decreases self.entries.len() - i,
        {
            if crate::text::same_text(self.entries[i].0.as_str(), run_id) {
                return Some(i);
            }
            i += 1;
        }
        None
    }

    /// Remembers the project and agent of a run, in place of what was
    /// remembered for it.
    pub fn save_run_id_mapping(&mut self, run_id: &str, project_id: &str, agent_id: &str)
        requires
            old(self).wf(),
        ensures
            final(self).wf(),
            final(self).get(run_id@) == Some((project_id@, agent_id@)),
            forall|other: Seq<char>|
                other != run_id@ ==> final(self).get(other) == old(self).get(other),
    {
        let ghost before = self.entries.model();
        let value = (project_id.to_owned(), agent_id.to_owned());
        match self.position(run_id) {
            Some(i) => {
                let entry = (run_id.to_owned(), value);
                let ghost old_items = self.entries@;
                self.entries.set(i, entry);
                proof {
                    assert(self.entries.model() =~= before.update(
                        i as int,
                        (before[i as int].0, (project_id@, agent_id@)),
                    ));
                    assert forall|j: int| 0 <= j < i implies (#[trigger] before[j]).0 != before[i as int].0 by {
                        assert(before[j] == old_items[j].model());
                    }
                    assert forall|key: Seq<char>|
                        self.get(key) == (if key == run_id@ {
                            Some((project_id@, agent_id@))
                        } else {
                            kept(before, key)
                        }) by {
                        lemma_kept_update(before, i as int, (project_id@, agent_id@), key);
                    }
                }
            },
            None => {
                let entry = (run_id.to_owned(), value);
                proof {
                    lemma_models_push(self.entries@, entry);
                    assert forall|j: int| 0 <= j < before.len() implies (#[trigger] before[j]).0 != run_id@ by {
                        assert(before[j] == self.entries@[j].model());
                    }
                    lemma_kept_absent(before, run_id@);
                    assert forall|key: Seq<char>|
                        kept(before.push(entry.model()), key) == (if key == run_id@ {
                            Some((project_id@, agent_id@))
                        } else {
                            kept(before, key)
                        }) by {
                        lemma_kept_push(before, entry.model(), key);
                        if key != run_id@ && kept(before, key) is None {
                        }
                    }
                }
                self.entries.push(entry);
            },
        }
    }

    /// The project and agent of a run.
    pub fn get_run_id_mapping(&self, run_id: &str) -> (r: Option<(String, String)>)
        requires
            self.wf(),
        ensures
            r.model() == self.get(run_id@),
    {
        let ghost all = self.entries.model();
        match self.position(run_id) {
            Some(i) => {
                proof {
                    assert(all[i as int] == self.entries@[i as int].model());
                    assert forall|j: int| 0 <= j < i implies (#[trigger] all[j]).0 != all[i as int].0 by {
                        assert(all[j] == self.entries@[j].model());
                    }
                    assert(all.update(i as int, (all[i as int].0, all[i as int].1)) =~= all);
                    lemma_kept_update(all, i as int, all[i as int].1, run_id@);
                }
                Some((self.entries[i].1.0.clone(), self.entries[i].1.1.clone()))
            },
            None => {
                proof {
                    assert forall|j: int| 0 <= j < all.len() implies (#[trigger] all[j]).0 != run_id@ by {
                        assert(all[j] == self.entries@[j].model());
                    }
                    lemma_kept_absent(all, run_id@);
                }
                None
            },
        }
    }

    /// Forgets the project and agent of a run.
    pub fn remove_run_id_mapping(&mut self, run_id: &str)
        requires
            old(self).wf(),
        ensures
            final(self).wf(),
            final(self).get(run_id@) is None,
            forall|other: Seq<char>|
                other != run_id@ ==> final(self).get(other) == old(self).get(other),
    {
        let ghost before = self.entries.model();
        let ghost old_items = self.entries@;
        match self.position(run_id) {
            Some(i) => {
                let _ = self.entries.remove(i);
                proof {
                    assert(self.entries.model() =~= before.remove(i as int));
                    assert forall|j: int|
                        0 <= j < before.len() && j != i implies (#[trigger] before[j]).0
                        != before[i as int].0 by {
                        assert(before[j] == old_items[j].model());
                        assert(before[i as int] == old_items[i as int].model());
                    }
                    assert forall|key: Seq<char>|
                        self.get(key) == (if key == run_id@ {
                            None
                        } else {
                            kept(before, key)
                        }) by {
                        lemma_kept_remove(before, i as int, key);
                    }
                }
            },
            None => {
                proof {
                    assert forall|j: int| 0 <= j < before.len() implies (#[trigger] before[j]).0 != run_id@ by {
                        assert(before[j] == self.entries@[j].model());
                    }
                    lemma_kept_absent(before, run_id@);
                }
            },
        }
    }
}

} // verus!
