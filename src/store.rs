//! The text side of the profile store: which files hold profiles, what a
//! profile's file says, and how the entries read from it make a profile.
//!
//! A profile named `n` is kept in the file `n.env` of the configuration
//! directory, as `KEY=value` lines for `USERNAME`, `HOSTNAME` and `TARGET_PATH`.

use vstd::prelude::*;
use crate::model::{Profile, ProfileView, StoreError};
use crate::state::{lemma_string_views_push, string_views};

verus! {

pub open spec fn suffix() -> Seq<char> {
    ".env"@
}

pub open spec fn username_key() -> Seq<char> {
    "USERNAME"@
}

pub open spec fn hostname_key() -> Seq<char> {
    "HOSTNAME"@
}

pub open spec fn path_key() -> Seq<char> {
    "TARGET_PATH"@
}

/// The name of the file that holds profile `name`.
pub open spec fn file_name_of(name: Seq<char>) -> Seq<char> {
    name + suffix()
}

/// A file holds a profile when its name is a non-empty stem followed by `.env`.
pub open spec fn is_profile_file(f: Seq<char>) -> bool {
    f.len() > suffix().len() && f.subrange(f.len() - suffix().len(), f.len() as int) == suffix()
}

/// The profile name of a profile file: its name without `.env`.
pub open spec fn stem(f: Seq<char>) -> Seq<char> {
    f.subrange(0, f.len() - suffix().len())
}

/// The profile names among the file names `fs`, in the order of the files.
pub open spec fn names_of(fs: Seq<Seq<char>>) -> Seq<Seq<char>>
    decreases fs.len(),
{
    if fs.len() == 0 {
        Seq::empty()
    } else {
        let rest = names_of(fs.drop_last());
        if is_profile_file(fs.last()) {
            rest.push(stem(fs.last()))
        } else {
            rest
        }
    }
}

pub open spec fn entry_views(es: Seq<(String, String)>) -> Seq<(Seq<char>, Seq<char>)> {
    es.map_values(|e: (String, String)| (e.0@, e.1@))
}

/// The value of the first entry with key `k`.
pub open spec fn lookup(es: Seq<(Seq<char>, Seq<char>)>, k: Seq<char>) -> Option<Seq<char>>
    decreases es.len(),
{
    if es.len() == 0 {
        None
    } else if es[0].0 == k {
        Some(es[0].1)
    } else {
        lookup(es.drop_first(), k)
    }
}

/// The profile named `name` that the entries of its file describe.
pub open spec fn profile_from_entries(name: Seq<char>, es: Seq<(Seq<char>, Seq<char>)>) -> Result<
    ProfileView,
    StoreError,
> {
    match (lookup(es, username_key()), lookup(es, hostname_key()), lookup(es, path_key())) {
        (Some(u), Some(h), Some(p)) => Ok(
            ProfileView { name, username: u, hostname: h, path: p },
        ),
        _ => Err(StoreError::MalformedRecord),
    }
}

/// The entries a profile's file holds, in order.
pub open spec fn record_entries(p: ProfileView) -> Seq<(Seq<char>, Seq<char>)> {
    seq![(username_key(), p.username), (hostname_key(), p.hostname), (path_key(), p.path)]
}

pub open spec fn line_of(e: (Seq<char>, Seq<char>)) -> Seq<char> {
    e.0 + "="@ + e.1
}

/// Entries as `KEY=value` lines, separated by line breaks.
pub open spec fn lines_of(es: Seq<(Seq<char>, Seq<char>)>) -> Seq<char>
    decreases es.len(),
{
    if es.len() == 0 {
        Seq::empty()
    } else if es.len() == 1 {
        line_of(es[0])
    } else {
        lines_of(es.drop_last()) + "\n"@ + line_of(es.last())
    }
}

/// The name of the file that holds profile `name`.
pub fn profile_file_name(name: &str) -> (r: String)
    ensures
        r@ == file_name_of(name@),
{
    name.to_owned().concat(".env")
}

/// Whether `f` names a profile file, by checking its last four characters.
fn has_profile_suffix(f: &str) -> (r: bool)
    ensures
        r == is_profile_file(f@),
{
    proof {
        reveal_strlit(".env");
    }
    let n = f.unicode_len();
    if n <= 4 {
        return false;
    }
    let r = f.get_char(n - 4) == '.' && f.get_char(n - 3) == 'e' && f.get_char(n - 2) == 'n'
        && f.get_char(n - 1) == 'v';
    assert(r ==> f@.subrange(n - 4, n as int) =~= suffix());
    assert(f@.subrange(n - 4, n as int) == suffix() ==> {
        &&& f@.subrange(n - 4, n as int)[0] == '.'
        &&& f@.subrange(n - 4, n as int)[1] == 'e'
        &&& f@.subrange(n - 4, n as int)[2] == 'n'
        &&& f@.subrange(n - 4, n as int)[3] == 'v'
    });
    r
}

/// The profile names among the names of the files in the configuration
/// directory, in directory order.
pub fn profile_names(files: &Vec<String>) -> (r: Vec<String>)
    ensures
        string_views(r@) == names_of(string_views(files@)),
{
    let mut r: Vec<String> = Vec::new();
    let mut i: usize = 0;
    while i < files.len()
        invariant
            0 <= i <= files.len(),
            string_views(r@) == names_of(string_views(files@.subrange(0, i as int))),
        decreases files.len() - i,
    {
        proof {
            reveal_strlit(".env");
        }
        let f = files[i].as_str();
        let ghost before = r@;
        assert(string_views(files@.subrange(0, i + 1)).drop_last() =~= string_views(
            files@.subrange(0, i as int),
        ));
        assert(string_views(files@.subrange(0, i + 1)).last() == files@[i as int]@);
        if has_profile_suffix(f) {
            let n = f.unicode_len();
            let name = f.substring_char(0, n - 4).to_owned();
            r.push(name);
            proof {
                lemma_string_views_push(before, name);
            }
        }
        i = i + 1;
    }
    assert(files@.subrange(0, files.len() as int) =~= files@);
    r
}

/// The text of the file that holds profile `p`.
pub fn record_text(p: &Profile) -> (r: String)
    ensures
        r@ == lines_of(record_entries(p@)),
{
    let r = "USERNAME=".to_owned().concat(p.username.as_str()).concat("\nHOSTNAME=").concat(
        p.hostname.as_str(),
    ).concat("\nTARGET_PATH=").concat(p.path.as_str());
    proof {
        reveal_strlit("USERNAME=");
        reveal_strlit("USERNAME");
        reveal_strlit("\nHOSTNAME=");
        reveal_strlit("HOSTNAME");
        reveal_strlit("\nTARGET_PATH=");
        reveal_strlit("TARGET_PATH");
        reveal_strlit("=");
        reveal_strlit("\n");
        let es = record_entries(p@);
        assert(es.drop_last().drop_last() =~= seq![es[0]]);
        assert(es.drop_last() =~= seq![es[0], es[1]]);
        assert(lines_of(es.drop_last().drop_last()) == line_of(es[0]));
        assert(lines_of(es.drop_last()) =~= line_of(es[0]) + "\n"@ + line_of(es[1]));
        assert(r@ =~= lines_of(es));
    }
    r
}

/// The profile named `name` that the entries read from its file describe: the
/// first entry for each key counts, and a missing key makes the record malformed.
pub fn profile_from_pairs(name: String, pairs: &Vec<(String, String)>) -> (r: Result<
    Profile,
    StoreError,
>)
    ensures
        match (r, profile_from_entries(name@, entry_views(pairs@))) {
            (Ok(p), Ok(q)) => p@ == q,
            (Err(e), Err(f)) => e == f,
            _ => false,
        },
{
    let username = find_value(pairs, &"USERNAME".to_owned());
    let hostname = find_value(pairs, &"HOSTNAME".to_owned());
    let path = find_value(pairs, &"TARGET_PATH".to_owned());
    match (username, hostname, path) {
        (Some(username), Some(hostname), Some(path)) => Ok(
            Profile { name, username, hostname, path },
        ),
        _ => Err(StoreError::MalformedRecord),
    }
}

proof fn lemma_lookup_prefix(es: Seq<(Seq<char>, Seq<char>)>, k: Seq<char>, i: int)
    requires
        0 <= i < es.len(),
        forall|j: int| 0 <= j < i ==> es[j].0 != k,
    ensures
        lookup(es, k) == lookup(es.subrange(i, es.len() as int), k),
    decreases i,
{
    if i == 0 {
        assert(es.subrange(0, es.len() as int) =~= es);
    } else {
        assert(es[0].0 != k);
        assert(es.drop_first().subrange(i - 1, es.drop_first().len() as int) =~= es.subrange(
            i,
            es.len() as int,
        ));
        lemma_lookup_prefix(es.drop_first(), k, i - 1);
    }
}

proof fn lemma_lookup_absent(es: Seq<(Seq<char>, Seq<char>)>, k: Seq<char>)
    requires
        forall|j: int| 0 <= j < es.len() ==> es[j].0 != k,
    ensures
        lookup(es, k) is None,
    decreases es.len(),
{
    if es.len() > 0 {
        lemma_lookup_absent(es.drop_first(), k);
    }
}

/// The value of the first pair whose key is `k`.
fn find_value(pairs: &Vec<(String, String)>, k: &String) -> (r: Option<String>)
    ensures
        match (r, lookup(entry_views(pairs@), k@)) {
            (Some(v), Some(w)) => v@ == w,
            (None, None) => true,
            _ => false,
        },
{
    let ghost es = entry_views(pairs@);
    let mut i: usize = 0;
    while i < pairs.len()
        invariant
            0 <= i <= pairs.len(),
            es == entry_views(pairs@),
            forall|j: int| 0 <= j < i ==> es[j].0 != k@,
        decreases pairs.len() - i,
    {
        if pairs[i].0 == *k {
            proof {
                lemma_lookup_prefix(es, k@, i as int);
                assert(es.subrange(i as int, es.len() as int)[0] == es[i as int]);
            }
            return Some(pairs[i].1.clone());
        }
        i = i + 1;
    }
    proof {
        lemma_lookup_absent(es, k@);
    }
    None
}

/// Reading back the entries written for a profile gives the profile.
pub proof fn lemma_record_round_trip(p: ProfileView)
    ensures
        profile_from_entries(p.name, record_entries(p)) == Ok::<ProfileView, StoreError>(p),
{
    reveal_strlit("USERNAME");
    reveal_strlit("HOSTNAME");
    reveal_strlit("TARGET_PATH");
    let es = record_entries(p);
    assert(username_key() != hostname_key()) by {
        assert(username_key()[0] != hostname_key()[0]);
    }
    assert(username_key() != path_key()) by {
        assert(username_key()[0] != path_key()[0]);
    }
    assert(hostname_key() != path_key()) by {
        assert(hostname_key()[0] != path_key()[0]);
    }
    assert(lookup(es, username_key()) == Some(p.username));
    let es1 = es.drop_first();
    let es2 = es1.drop_first();
    assert(es1[0] == es[1]);
    assert(es2[0] == es[2]);
    assert(lookup(es1, hostname_key()) == Some(p.hostname));
    assert(lookup(es, hostname_key()) == lookup(es1, hostname_key()));
    assert(lookup(es2, path_key()) == Some(p.path));
    assert(lookup(es1, path_key()) == lookup(es2, path_key()));
    assert(lookup(es, path_key()) == lookup(es1, path_key()));
}

proof fn lemma_profile_file_parts(f: Seq<char>)
    requires
        is_profile_file(f),
    ensures
        f == file_name_of(stem(f)),
{
    assert(f =~= stem(f) + f.subrange(f.len() - suffix().len(), f.len() as int));
}

/// A profile whose file is not among the files listed is not among the names.
pub proof fn lemma_absent_file_not_listed(fs: Seq<Seq<char>>, name: Seq<char>)
    requires
        !fs.contains(file_name_of(name)),
    ensures
        !names_of(fs).contains(name),
    decreases fs.len(),
{
    if fs.len() > 0 {
        let rest = fs.drop_last();
        assert forall|j: int| 0 <= j < rest.len() implies rest[j] != file_name_of(name) by {
            assert(rest[j] == fs[j]);
        }
        lemma_absent_file_not_listed(rest, name);
        if is_profile_file(fs.last()) {
            lemma_profile_file_parts(fs.last());
            assert(fs.last() == fs[fs.len() - 1]);
            assert(stem(fs.last()) != name);
            assert forall|j: int| 0 <= j < names_of(fs).len() implies names_of(fs)[j] != name by {
                if j < names_of(rest).len() {
                    assert(names_of(fs)[j] == names_of(rest)[j]);
                }
            }
        }
    }
}

/// A profile whose file is among the files listed, under a non-empty name, is
/// among the names.
pub proof fn lemma_present_file_listed(fs: Seq<Seq<char>>, name: Seq<char>)
    requires
        fs.contains(file_name_of(name)),
        name.len() > 0,
    ensures
        names_of(fs).contains(name),
    decreases fs.len(),
{
    reveal_strlit(".env");
    let f = file_name_of(name);
    let rest = fs.drop_last();
    if fs.last() == f {
        assert(f.subrange(f.len() - suffix().len(), f.len() as int) =~= suffix());
        assert(stem(f) =~= name);
        assert(names_of(fs).last() == name);
    } else {
        let j = choose|j: int| 0 <= j < fs.len() && fs[j] == f;
        assert(j < rest.len() && rest[j] == f);
        lemma_present_file_listed(rest, name);
        let k = choose|k: int| 0 <= k < names_of(rest).len() && names_of(rest)[k] == name;
        assert(names_of(fs)[k] == name);
    }
}

} // verus!
