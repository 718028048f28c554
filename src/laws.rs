use vstd::prelude::*;
use crate::registry::{
    command_lookup, configuration_key_of, is_under, lookup, protocol_key_of,
    registration_entries, unregistered, without_tree, EntryModel,
};

verus! {

/// Every entry kept by removing the tree `k` was in `s` and is not under `k`.
proof fn lemma_without_tree_kept(s: Seq<EntryModel>, k: Seq<char>)
    ensures
        forall|i: int| 0 <= i < without_tree(s, k).len() ==> {
            &&& !is_under(#[trigger] without_tree(s, k)[i].0, k)
            &&& s.contains(without_tree(s, k)[i])
        },
    decreases s.len(),
{
    if s.len() > 0 {
        let rest = s.drop_last();
        lemma_without_tree_kept(rest, k);
        assert forall|i: int| 0 <= i < without_tree(s, k).len() implies {
            &&& !is_under(#[trigger] without_tree(s, k)[i].0, k)
            &&& s.contains(without_tree(s, k)[i])
        } by {
            let w = without_tree(s, k);
            if i < without_tree(rest, k).len() {
                assert(w[i] == without_tree(rest, k)[i]);
                let j = choose|j: int| 0 <= j < rest.len() && rest[j] == w[i];
                assert(s[j] == w[i]);
            } else {
                assert(w[i] == s.last());
                assert(s[s.len() - 1] == w[i]);
            }
        }
    }
}

/// Removing a tree under which nothing lies changes nothing.
proof fn lemma_without_tree_absent(s: Seq<EntryModel>, k: Seq<char>)
    requires
        forall|i: int| 0 <= i < s.len() ==> !is_under(#[trigger] s[i].0, k),
    ensures
        without_tree(s, k) == s,
    decreases s.len(),
{
    if s.len() > 0 {
        lemma_without_tree_absent(s.drop_last(), k);
        assert(without_tree(s, k) =~= s.drop_last().push(s.last()));
        assert(s.drop_last().push(s.last()) =~= s);
    }
}

/// After unregistering `p`, nothing lies under either of its two key paths.
pub proof fn lemma_unregister_clears(s: Seq<EntryModel>, p: Seq<char>)
    ensures
        forall|i: int| 0 <= i < unregistered(s, p).len() ==> {
            &&& !is_under(#[trigger] unregistered(s, p)[i].0, protocol_key_of(p))
            &&& !is_under(unregistered(s, p)[i].0, configuration_key_of(p))
        },
{
    let once = without_tree(s, protocol_key_of(p));
    lemma_without_tree_kept(s, protocol_key_of(p));
    lemma_without_tree_kept(once, configuration_key_of(p));
    assert forall|i: int| 0 <= i < unregistered(s, p).len() implies {
        &&& !is_under(#[trigger] unregistered(s, p)[i].0, protocol_key_of(p))
        &&& !is_under(unregistered(s, p)[i].0, configuration_key_of(p))
    } by {
        let e = unregistered(s, p)[i];
        assert(!is_under(without_tree(once, configuration_key_of(p))[i].0, configuration_key_of(p)));
        assert(once.contains(e));
        let j = choose|j: int| 0 <= j < once.len() && once[j] == e;
        assert(!is_under(once[j].0, protocol_key_of(p)));
    }
}

/// Unregistering a protocol where nothing is stored for it leaves the store
/// as it was.
pub proof fn lemma_unregister_absent(s: Seq<EntryModel>, p: Seq<char>)
    requires
        forall|i: int| 0 <= i < s.len() ==> !is_under(#[trigger] s[i].0, protocol_key_of(p)),
        forall|i: int| 0 <= i < s.len() ==> !is_under(#[trigger] s[i].0, configuration_key_of(p)),
    ensures
        unregistered(s, p) == s,
{
    lemma_without_tree_absent(s, protocol_key_of(p));
    lemma_without_tree_absent(s, configuration_key_of(p));
}

/// Unregistering twice in a row leaves the store as unregistering once does.
pub proof fn lemma_unregister_idempotent(s: Seq<EntryModel>, p: Seq<char>)
    ensures
        unregistered(unregistered(s, p), p) == unregistered(s, p),
{
    lemma_unregister_clears(s, p);
    lemma_unregister_absent(unregistered(s, p), p);
}

/// Registering a protocol with a non-empty command, then reading its
/// command, gives back that command unchanged.
pub proof fn lemma_register_then_get_command(
    s: Seq<EntryModel>,
    p: Seq<char>,
    cmd: Seq<Seq<char>>,
    exe: Seq<char>,
    extra: Option<Seq<char>>,
)
    requires
        cmd.len() > 0,
    ensures
        command_lookup(s + registration_entries(p, cmd, exe, extra), p) == Ok::<
            Seq<Seq<char>>,
            crate::registry::StoreError,
        >(cmd),
{
    let t = s + registration_entries(p, cmd, exe, extra);
    assert(t.last() == registration_entries(p, cmd, exe, extra)[4]);
    assert(lookup(t, configuration_key_of(p), "command"@) == Some(
        crate::registry::ValueModel::List(cmd),
    ));
}

} // verus!
