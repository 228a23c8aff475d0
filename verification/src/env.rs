//! A captured snapshot of environment variables.
//!
//! The resolver never reads the live process environment: the caller
//! captures the variables it wants the resolver to see into an [`Env`]
//! value. A variable's captured value is either text ([`EnvValue::Unicode`])
//! or, when the raw value does not decode as text, its raw bytes
//! ([`EnvValue::NonUnicode`]). In specifications the state of one variable
//! is an [`EnvVarView`], where an unmapped name reads as
//! [`EnvVarView::Unset`].

use vstd::prelude::*;
use vstd::string::*;

use crate::strings::str_eq;

verus! {

/// The captured value of one environment variable.
#[derive(Debug, Clone)]
pub enum EnvValue {
    /// The value decodes as valid text.
    Unicode(String),
    /// The raw bytes of a value that does not decode as valid text.
    NonUnicode(Vec<u8>),
}

/// The state of one variable in a captured environment, as seen by
/// specifications.
pub enum EnvVarView {
    /// The variable is not present in the snapshot.
    Unset,
    /// The variable is present with a textual value.
    Unicode(Seq<char>),
    /// The variable is present with a value that is not valid text.
    NonUnicode(Seq<u8>),
}

impl View for EnvValue {
    type V = EnvVarView;

    open spec fn view(&self) -> EnvVarView {
        match self {
            EnvValue::Unicode(s) => EnvVarView::Unicode(s@),
            EnvValue::NonUnicode(b) => EnvVarView::NonUnicode(b@),
        }
    }
}

/// A snapshot of environment variables: an ordered list of bindings in
/// which the most recently set binding of a name shadows earlier ones.
#[derive(Debug, Clone)]
pub struct Env {
    entries: Vec<(String, EnvValue)>,
}

/// The state of `name` in `entries`: the binding nearest the front wins
/// — `set` inserts at the front, so the most recent binding shadows
/// older ones — and a name with no binding is unset.
spec fn lookup(entries: Seq<(String, EnvValue)>, name: Seq<char>) -> EnvVarView
    decreases entries.len(),
{
    if entries.len() == 0 {
        EnvVarView::Unset
    } else if entries[0].0@ == name {
        entries[0].1@
    } else {
        lookup(entries.drop_first(), name)
    }
}

impl Env {
    /// The state of the variable `name` in this snapshot.
    pub closed spec fn var(&self, name: Seq<char>) -> EnvVarView {
        lookup(self.entries@, name)
    }

    /// Creates an empty snapshot, in which every variable is unset.
    pub fn new() -> (e: Env)
        ensures
            forall|name: Seq<char>| e.var(name) == EnvVarView::Unset,
    {
        Env { entries: Vec::new() }
    }

    /// Binds `name` to `value`, shadowing any earlier binding of `name`
    /// and leaving every other variable unchanged.
    pub fn set(&mut self, name: &str, value: EnvValue)
        ensures
            final(self).var(name@) == value@,
            forall|other: Seq<char>|
                other != name@ ==> final(self).var(other) == old(self).var(other),
    {
        let key = String::from_str(name);
        self.entries.insert(0, (key, value));
        proof {
            assert(self.entries@.drop_first() =~= old(self).entries@);
        }
    }

    /// Looks `name` up in the snapshot.
    pub fn get(&self, name: &str) -> (r: Option<&EnvValue>)
        ensures
            match r {
                Option::None => self.var(name@) == EnvVarView::Unset,
                Option::Some(v) => self.var(name@) == v@,
            },
    {
        proof {
            assert(self.entries@.skip(0) =~= self.entries@);
        }
        let mut i: usize = 0;
        while i < self.entries.len()
            invariant
                i <= self.entries@.len(),
                lookup(self.entries@, name@) == lookup(
                    self.entries@.skip(i as int),
                    name@,
                ),
            decreases self.entries@.len() - i,
        {
            proof {
                assert(self.entries@.skip(i as int)[0] == self.entries@[i as int]);
                assert(self.entries@.skip(i as int).drop_first() =~= self.entries@.skip(
                    i as int + 1,
                ));
            }
            let entry = &self.entries[i];
            if str_eq(entry.0.as_str(), name) {
                return Some(&entry.1);
            }
            i += 1;
        }
        proof {
            assert(self.entries@.skip(self.entries@.len() as int) =~= Seq::<(
                String,
                EnvValue,
            )>::empty());
        }
        None
    }
}

} // verus!
