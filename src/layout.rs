//! On-disk layout of installed versions and the choice of what to prune.
use vstd::prelude::*;
use vstd::string::*;

verus! {

/// Name of the directory that holds version `version`: `sqleibniz-<version>`.
pub open spec fn version_dir_of(version: Seq<char>) -> Seq<char> {
    "sqleibniz-"@ + version
}

/// Path of a file named `file` inside directory `dir`.
pub open spec fn path_in(dir: Seq<char>, file: Seq<char>) -> Seq<char> {
    dir + "/"@ + file
}

/// The names of a list of directory entries.
pub open spec fn names_of(entries: Seq<String>) -> Seq<Seq<char>> {
    entries.map_values(|s: String| s@)
}

/// The entries other than `keep`, in their original order.
pub open spec fn stale_of(entries: Seq<Seq<char>>, keep: Seq<char>) -> Seq<Seq<char>>
    decreases entries.len(),
{
    if entries.len() == 0 {
        Seq::empty()
    } else {
        let rest = stale_of(entries.drop_last(), keep);
        if entries.last() != keep {
            rest.push(entries.last())
        } else {
            rest
        }
    }
}

/// Directory name for an installed version.
pub fn version_dir_name(version: &str) -> (r: String)
    ensures
        r@ == version_dir_of(version@),
{
    String::from_str("sqleibniz-").concat(version)
}

/// Path of the executable `binary` inside the directory `dir`.
pub fn executable_path(dir: &str, binary: &str) -> (r: String)
    ensures
        r@ == path_in(dir@, binary@),
{
    String::from_str(dir).concat("/").concat(binary)
}

/// The entries of the installation root that pruning removes: every entry
/// whose name differs from `keep`, the directory of the current version.
/// Note that this is every other entry, not only `sqleibniz-*` version
/// directories: anything else placed in the installation root is removed too.
pub fn stale_entries(entries: &Vec<String>, keep: &String) -> (r: Vec<String>)
    ensures
        names_of(r@) == stale_of(names_of(entries@), keep@),
{
    let mut out: Vec<String> = Vec::new();
    let mut i: usize = 0;
    while i < entries.len()
        invariant
            i <= entries.len(),
            names_of(out@) == stale_of(names_of(entries@).take(i as int), keep@),
        decreases entries.len() - i,
    {
        let ghost before = names_of(entries@).take(i as int);
        let ghost after = names_of(entries@).take(i as int + 1);
        proof {
            assert(after.drop_last() =~= before);
        }
        if entries[i] != *keep {
            out.push(entries[i].clone());
            proof {
                assert(names_of(out@) =~= stale_of(before, keep@).push(entries@[i as int]@));
            }
        }
        i = i + 1;
    }
    proof {
        assert(names_of(entries@).take(entries.len() as int) =~= names_of(entries@));
    }
    out
}

/// What pruning removes is exactly the entries that are not `keep`: each
/// removed name is an entry other than `keep`, and each entry other than
/// `keep` is removed.
pub proof fn stale_membership(entries: Seq<Seq<char>>, keep: Seq<char>)
    ensures
        forall|e: Seq<char>| #[trigger] stale_of(entries, keep).contains(e)
            <==> (entries.contains(e) && e != keep),
    decreases entries.len(),
{
    if entries.len() > 0 {
        stale_membership(entries.drop_last(), keep);
        let rest = entries.drop_last();
        assert(entries =~= rest.push(entries.last()));
        assert forall|e: Seq<char>| entries.contains(e) <==> (rest.contains(e) || e == entries.last()) by {
            if entries.contains(e) {
                let k = choose|k: int| 0 <= k < entries.len() && entries[k] == e;
                if k < rest.len() {
                    assert(rest[k] == e);
                }
            }
            if rest.contains(e) {
                let k = choose|k: int| 0 <= k < rest.len() && rest[k] == e;
                assert(entries[k] == e);
            }
            if e == entries.last() {
                assert(entries[entries.len() - 1] == e);
            }
        }
        let rs = stale_of(rest, keep);
        if entries.last() != keep {
            assert forall|e: Seq<char>| rs.push(entries.last()).contains(e)
                <==> (rs.contains(e) || e == entries.last()) by {
                if rs.push(entries.last()).contains(e) {
                    let k = choose|k: int| 0 <= k < rs.len() + 1 && rs.push(entries.last())[k] == e;
                    if k < rs.len() {
                        assert(rs[k] == e);
                    }
                }
                if rs.contains(e) {
                    let k = choose|k: int| 0 <= k < rs.len() && rs[k] == e;
                    assert(rs.push(entries.last())[k] == e);
                }
                if e == entries.last() {
                    assert(rs.push(entries.last())[rs.len() as int] == e);
                }
            }
        }
        assert forall|e: Seq<char>| #[trigger] stale_of(entries, keep).contains(e)
            <==> (entries.contains(e) && e != keep) by {
            assert(rs.contains(e) <==> (rest.contains(e) && e != keep));
        }
    } else {
        assert forall|e: Seq<char>| !entries.contains(e) by {
            if entries.contains(e) {
                let k = choose|k: int| 0 <= k < entries.len() && entries[k] == e;
            }
        }
        assert(stale_of(entries, keep) =~= Seq::<Seq<char>>::empty());
    }
}

/// After pruning for version directory `keep`, at most one entry is left in
/// the installation root, and it is `keep`: every entry that pruning does not
/// remove is the current version's directory.
pub proof fn prune_keeps_only_current(entries: Seq<Seq<char>>, keep: Seq<char>)
    ensures
        forall|e: Seq<char>| entries.contains(e) && !stale_of(entries, keep).contains(e)
            ==> e == keep,
        !stale_of(entries, keep).contains(keep),
{
    stale_membership(entries, keep);
}

} // verus!
