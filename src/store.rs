use vstd::prelude::*;
use crate::registry::{
    command_lookup, get_configuration_registry_key, get_protocol_registry_key, is_under, lookup,
    registration_entries, registration_plan, strings_view, unregistered, without_tree,
    writes_model, extra_view, EntryModel, RegData, RegWrite, StoreError,
};
use crate::scheme::{ascii_lowered, is_valid_scheme, scheme_result, SchemeError};

verus! {

/// Whether the first `n` characters of `a` and `b` agree.
fn same_prefix(a: &str, b: &str, n: usize) -> (r: bool)
    requires
        n <= a@.len(),
        n <= b@.len(),
    ensures
        r == (a@.subrange(0, n as int) == b@.subrange(0, n as int)),
{
    let mut i: usize = 0;
    while i < n
        invariant
            n <= a@.len(),
            n <= b@.len(),
            i <= n,
            a@.subrange(0, i as int) == b@.subrange(0, i as int),
        decreases n - i,
    {
        if a.get_char(i) != b.get_char(i) {
            assert(a@.subrange(0, n as int)[i as int] != b@.subrange(0, n as int)[i as int]);
            return false;
        }
        assert(a@.subrange(0, i + 1) =~= a@.subrange(0, i as int).push(a@[i as int]));
        assert(b@.subrange(0, i + 1) =~= b@.subrange(0, i as int).push(b@[i as int]));
        i = i + 1;
    }
    true
}

/// Whether the key path `key` lies under `k`.
pub fn key_is_under(key: &str, k: &str) -> (r: bool)
    ensures
        r == is_under(key@, k@),
{
    let n = k.unicode_len();
    let m = key.unicode_len();
    if m < n {
        assert(key@ != k@);
        false
    } else if m == n {
        let r = same_prefix(key, k, n);
        assert(key@.subrange(0, n as int) =~= key@);
        assert(k@.subrange(0, n as int) =~= k@);
        r
    } else {
        assert(k@.subrange(0, n as int) =~= k@);
        same_prefix(key, k, n) && key.get_char(n) == '\\'
    }
}

/// An in-memory hierarchical store of named values: key paths whose parts
/// are separated by `\`, each holding values by name. The value last
/// written under a key path and name is the one read back.
pub struct MemoryStore {
    entries: Vec<RegWrite>,
}

impl View for MemoryStore {
    type V = Seq<EntryModel>;

    closed spec fn view(&self) -> Seq<EntryModel> {
        writes_model(self.entries@)
    }
}

impl MemoryStore {
    /// An empty store.
    pub fn new() -> (r: MemoryStore)
        ensures
            r@ == Seq::<EntryModel>::empty(),
    {
        let r = MemoryStore { entries: Vec::new() };
        assert(r@ =~= Seq::<EntryModel>::empty());
        r
    }

    /// Writes one value, replacing what was stored under its key path and name.
    pub fn set_value(&mut self, w: RegWrite)
        ensures
            final(self)@ == old(self)@.push(w.model()),
    {
        let ghost m = w.model();
        self.entries.push(w);
        assert(self@ =~= old(self)@.push(m));
    }

    /// Writes the values of `plan` in order.
    pub fn apply(&mut self, plan: &Vec<RegWrite>)
        ensures
            final(self)@ == old(self)@ + writes_model(plan@),
    {
        let mut i: usize = 0;
        while i < plan.len()
            invariant
                i <= plan@.len(),
                self@ == old(self)@ + writes_model(plan@.subrange(0, i as int)),
            decreases plan@.len() - i,
        {
            self.set_value(plan[i].duplicate());
            assert(writes_model(plan@.subrange(0, i + 1))
                =~= writes_model(plan@.subrange(0, i as int)).push(plan@[i as int].model()));
            i = i + 1;
        }
        assert(plan@.subrange(0, plan@.len() as int) =~= plan@);
    }

    /// The value last written under `key` and `name`.
    pub fn get_value(&self, key: &str, name: &str) -> (r: Option<RegData>)
        ensures
            match r {
                Some(d) => lookup(self@, key@, name@) == Some(d.model()),
                None => lookup(self@, key@, name@) is None,
            },
    {
        let key_s = String::from_str(key);
        let name_s = String::from_str(name);
        let mut i: usize = self.entries.len();
        assert(self@.subrange(0, i as int) =~= self@);
        while i > 0
            invariant
                i <= self@.len(),
                key_s@ == key@,
                name_s@ == name@,
                lookup(self@, key@, name@) == lookup(self@.subrange(0, i as int), key@, name@),
            decreases i,
        {
            let e = &self.entries[i - 1];
            assert(self@.subrange(0, i - 1) =~= self@.subrange(0, i as int).drop_last());
            assert(self@[i - 1] == e.model());
            if e.key == key_s && e.name == name_s {
                assert(self@.subrange(0, i as int).last() == self@[i - 1]);
                return Some(e.data.duplicate());
            }
            i = i - 1;
        }
        None
    }

    /// Removes every value under the key path `key`; nothing happens where
    /// there is none.
    pub fn remove_tree(&mut self, key: &str)
        ensures
            final(self)@ == without_tree(old(self)@, key@),
    {
        let mut kept: Vec<RegWrite> = Vec::new();
        let mut i: usize = 0;
        while i < self.entries.len()
            invariant
                i <= self@.len(),
                writes_model(kept@) == without_tree(self@.subrange(0, i as int), key@),
            decreases self@.len() - i,
        {
            let e = &self.entries[i];
            assert(self@.subrange(0, i as int) =~= self@.subrange(0, i + 1).drop_last());
            if !key_is_under(e.key.as_str(), key) {
                let ghost before = kept@;
                kept.push(e.duplicate());
                assert(writes_model(kept@) =~= writes_model(before).push(self@[i as int]));
            }
            i = i + 1;
        }
        assert(self@.subrange(0, self@.len() as int) =~= self@);
        self.entries = kept;
    }

    /// Whether any value is stored under the key path `key`.
    pub fn has_tree(&self, key: &str) -> (r: bool)
        ensures
            r == exists|i: int| 0 <= i < self@.len() && is_under(#[trigger] self@[i].0, key@),
    {
        let mut i: usize = 0;
        while i < self.entries.len()
            invariant
                i <= self@.len(),
                forall|j: int| 0 <= j < i ==> !is_under(#[trigger] self@[j].0, key@),
            decreases self@.len() - i,
        {
            if key_is_under(self.entries[i].key.as_str(), key) {
                assert(is_under(self@[i as int].0, key@));
                return true;
            }
            i = i + 1;
        }
        false
    }

    /// Registers `protocol`: validates it as a scheme, then declares
    /// `exe_path` as the handler of its lower-case form to the system and
    /// stores `commandline` as the command run when no instance listens. An
    /// invalid scheme is reported before anything is written.
    pub fn register(
        &mut self,
        protocol: &str,
        commandline: &Vec<String>,
        exe_path: &str,
        extra_args: Option<&str>,
    ) -> (r: Result<(), SchemeError>)
        ensures
            r is Ok <==> is_valid_scheme(protocol@),
            match r {
                Ok(_) => final(self)@ == old(self)@ + registration_entries(
                    ascii_lowered(protocol@),
                    strings_view(commandline@),
                    exe_path@,
                    extra_view(extra_args),
                ),
                Err(e) => final(self)@ == old(self)@ && scheme_result(protocol@) == Err::<
                    Seq<char>,
                    SchemeError,
                >(e),
            },
    {
        let plan = registration_plan(protocol, commandline, exe_path, extra_args)?;
        self.apply(&plan);
        Ok(())
    }

    /// Removes everything stored for `protocol`; never fails, also where
    /// nothing was stored.
    pub fn unregister(&mut self, protocol: &str)
        ensures
            final(self)@ == unregistered(old(self)@, protocol@),
    {
        let pk = get_protocol_registry_key(protocol);
        self.remove_tree(pk.as_str());
        let ck = get_configuration_registry_key(protocol);
        self.remove_tree(ck.as_str());
    }

    /// The command stored for `protocol`.
    pub fn get_command(&self, protocol: &str) -> (r: Result<Vec<String>, StoreError>)
        ensures
            match r {
                Ok(v) => command_lookup(self@, protocol@) == Ok::<Seq<Seq<char>>, StoreError>(strings_view(v@)),
                Err(e) => command_lookup(self@, protocol@) == Err::<Seq<Seq<char>>, StoreError>(e),
            },
    {
        let key = get_configuration_registry_key(protocol);
        let found = self.get_value(key.as_str(), "command");
        proof {
            reveal_strlit("command");
        }
        match found {
            None => Err(StoreError::NotFound),
            Some(RegData::List(v)) => if v.len() > 0 {
                Ok(v)
            } else {
                Err(StoreError::Malformed)
            },
            Some(RegData::Text(_)) => Err(StoreError::Malformed),
        }
    }
}

} // verus!
