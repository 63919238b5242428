//! The environment resolver: the augmented PATH built for the spawned child
//! (never for the host process), and the choice of binary to invoke.
//!
//! The PATH starts from the host's own entries, appends a fixed list of
//! conventional installation directories, then user-home tool directories and
//! the version-manager installations the caller discovered, then the parent
//! directory of an explicit override; entries already present are not added
//! again.

use vstd::prelude::*;

verus! {

broadcast use vstd::seq::group_seq_axioms;

use vstd::string::StringExecFns;
use vstd::string::StrSliceExecFns;
use crate::strings::trimmed;
use crate::strings::trim_ascii;

/// Splitting with an accumulator: `cur` is the segment read so far; a colon
/// or the end closes it, and empty segments are dropped.
pub open spec fn split_acc(s: Seq<char>, cur: Seq<char>) -> Seq<Seq<char>>
    decreases s.len(),
{
    if s.len() == 0 {
        if cur.len() == 0 {
            Seq::empty()
        } else {
            seq![cur]
        }
    } else if s[0] == ':' {
        (if cur.len() == 0 {
            Seq::<Seq<char>>::empty()
        } else {
            seq![cur]
        }) + split_acc(s.skip(1), Seq::empty())
    } else {
        split_acc(s.skip(1), cur.push(s[0]))
    }
}

/// The non-empty colon-separated segments of a PATH value, in order.
pub open spec fn split_path_entries(s: Seq<char>) -> Seq<Seq<char>> {
    split_acc(s, Seq::empty())
}

/// Appends `x` unless it is already present.
pub open spec fn add_unique(acc: Seq<Seq<char>>, x: Seq<char>) -> Seq<Seq<char>> {
    if acc.contains(x) {
        acc
    } else {
        acc.push(x)
    }
}

/// Appends each extra in order, skipping the ones already present.
pub open spec fn add_all_unique(acc: Seq<Seq<char>>, xs: Seq<Seq<char>>) -> Seq<Seq<char>>
    decreases xs.len(),
{
    if xs.len() == 0 {
        acc
    } else {
        add_all_unique(add_unique(acc, xs[0]), xs.skip(1))
    }
}

/// The entries joined with colons.
pub open spec fn join_colon(xs: Seq<Seq<char>>) -> Seq<char>
    decreases xs.len(),
{
    if xs.len() == 0 {
        Seq::empty()
    } else if xs.len() == 1 {
        xs[0]
    } else {
        xs[0] + ":"@ + join_colon(xs.skip(1))
    }
}

/// The index of the last `/` in `s`, or a negative value if there is none.
pub open spec fn last_slash(s: Seq<char>) -> int
    decreases s.len(),
{
    if s.len() == 0 {
        -1
    } else if s[s.len() - 1] == '/' {
        s.len() - 1
    } else {
        last_slash(s.drop_last())
    }
}

/// `s` without its trailing slashes.
pub open spec fn drop_trailing_slashes(s: Seq<char>) -> Seq<char>
    decreases s.len(),
{
    if s.len() > 0 && s[s.len() - 1] == '/' {
        drop_trailing_slashes(s.drop_last())
    } else {
        s
    }
}

/// The directory part of a path: what stands before its last run of slashes,
/// the root itself for an entry directly under it, and nothing for a bare
/// name.
pub open spec fn parent_dir_of(s: Seq<char>) -> Option<Seq<char>> {
    let k = last_slash(s);
    if k < 0 {
        None
    } else {
        let p = drop_trailing_slashes(s.take(k));
        if p.len() == 0 {
            Some("/"@)
        } else {
            Some(p)
        }
    }
}

/// The fixed list of conventional installation directories.
pub open spec fn default_dirs() -> Seq<Seq<char>> {
    seq![
        "/opt/homebrew/bin"@,
        "/usr/local/bin"@,
        "/usr/bin"@,
        "/bin"@,
        "/usr/sbin"@,
        "/sbin"@,
    ]
}

/// The user-home tool directories appended when a home directory is known.
pub open spec fn home_dirs(h: Seq<char>) -> Seq<Seq<char>> {
    seq![h + "/.local/bin"@, h + "/.cargo/bin"@, h + "/.bun/bin"@]
}

/// The per-user version-manager tree whose installed versions are scanned.
pub open spec fn nvm_node_root(h: Seq<char>) -> Seq<char> {
    h + "/.nvm/versions/node"@
}

/// Every extra directory appended after the host's own entries: the fixed
/// list; the home tool directories and discovered version-manager `bin`
/// directories when a home is known; and the parent directory of a non-blank
/// override when it has one.
pub open spec fn resolver_extras(
    home: Option<Seq<char>>,
    nvm_bins: Seq<Seq<char>>,
    codex_bin: Option<Seq<char>>,
) -> Seq<Seq<char>> {
    default_dirs() + (match home {
        Some(h) => home_dirs(h) + nvm_bins,
        None => Seq::<Seq<char>>::empty(),
    }) + (match codex_bin {
        Some(b) => if trimmed(b).len() > 0 {
            match parent_dir_of(b) {
                Some(p) => seq![p],
                None => Seq::<Seq<char>>::empty(),
            }
        } else {
            Seq::<Seq<char>>::empty()
        },
        None => Seq::<Seq<char>>::empty(),
    })
}

/// The augmented PATH: the host entries followed by the extras not already
/// present, joined with colons; nothing when that list is empty.
pub open spec fn augmented_path(
    path_var: Seq<char>,
    home: Option<Seq<char>>,
    nvm_bins: Seq<Seq<char>>,
    codex_bin: Option<Seq<char>>,
) -> Option<Seq<char>> {
    let all = add_all_unique(
        split_path_entries(path_var),
        resolver_extras(home, nvm_bins, codex_bin),
    );
    if all.len() == 0 {
        None
    } else {
        Some(join_colon(all))
    }
}

/// Splits a PATH value into its non-empty entries.
pub fn split_path(s: &str) -> (r: Vec<String>)
    ensures
        r.deep_view() == split_path_entries(s@),
{
    let n = s.unicode_len();
    let mut out: Vec<String> = Vec::new();
    let mut start: usize = 0;
    let mut i: usize = 0;
    proof {
        assert(s@.skip(0) =~= s@);
        assert(s@.subrange(0, 0) =~= Seq::<char>::empty());
        assert(out.deep_view() =~= Seq::<Seq<char>>::empty());
        assert(out.deep_view() + split_acc(s@, Seq::empty()) =~= split_path_entries(s@));
    }
    while i < n
        invariant
            n == s@.len(),
            start <= i <= n,
            out.deep_view() + split_acc(s@.skip(i as int), s@.subrange(start as int, i as int))
                == split_path_entries(s@),
        decreases n - i,
    {
        let ghost rem = s@.skip(i as int);
        let ghost cur = s@.subrange(start as int, i as int);
        let c = s.get_char(i);
        proof {
            assert(rem[0] == s@[i as int]);
            assert(rem.skip(1) =~= s@.skip(i + 1));
        }
        if c == ':' {
            proof {
                assert(split_acc(rem, cur) == (if cur.len() == 0 {
                    Seq::<Seq<char>>::empty()
                } else {
                    seq![cur]
                }) + split_acc(s@.skip(i + 1), Seq::empty()));
            }
            if start < i {
                let piece = s.substring_char(start, i);
                let ghost prev = out.deep_view();
                out.push(piece.to_owned());
                proof {
                    assert(out.deep_view() =~= prev.push(cur));
                }
            }
            proof {
                assert(s@.subrange(i + 1, i + 1) =~= Seq::<char>::empty());
                assert(out.deep_view() + split_acc(s@.skip(i + 1), s@.subrange(i + 1, i + 1))
                    =~= split_path_entries(s@));
            }
            start = i + 1;
        } else {
            proof {
                assert(cur.push(s@[i as int]) =~= s@.subrange(start as int, i + 1));
                assert(split_acc(rem, cur) == split_acc(s@.skip(i + 1), s@.subrange(
                    start as int,
                    i + 1,
                )));
            }
        }
        i = i + 1;
    }
    proof {
        assert(s@.skip(n as int) =~= Seq::<char>::empty());
    }
    if start < n {
        let piece = s.substring_char(start, n);
        let ghost prev = out.deep_view();
        out.push(piece.to_owned());
        proof {
            assert(out.deep_view() =~= prev.push(s@.subrange(start as int, n as int)));
            assert(out.deep_view() =~= split_path_entries(s@));
        }
    } else {
        proof {
            assert(s@.subrange(start as int, n as int).len() == 0);
            assert(out.deep_view() + Seq::<Seq<char>>::empty() =~= out.deep_view());
            assert(out.deep_view() =~= split_path_entries(s@));
        }
    }
    out
}

/// Whether `x` is already one of the entries.
fn entries_contain(v: &Vec<String>, x: &String) -> (r: bool)
    ensures
        r == v.deep_view().contains(x@),
{
    let mut j: usize = 0;
    while j < v.len()
        invariant
            j <= v@.len(),
            forall|l: int| 0 <= l < j ==> #[trigger] v.deep_view()[l] != x@,
        decreases v@.len() - j,
    {
        proof {
            assert(v.deep_view()[j as int] == v@[j as int].deep_view());
        }
        if v[j].eq(x) {
            proof {
                assert(v.deep_view()[j as int] == x@);
            }
            return true;
        }
        j = j + 1;
    }
    proof {
        if v.deep_view().contains(x@) {
            let w = choose|w: int| 0 <= w < v.deep_view().len() && v.deep_view()[w] == x@;
            assert(v.deep_view()[w] != x@);
        }
    }
    false
}

/// Appends each extra entry that is not already present, in order.
fn append_unique(paths: &mut Vec<String>, extras: Vec<String>)
    ensures
        final(paths).deep_view() == add_all_unique(old(paths).deep_view(), extras.deep_view()),
{
    let ghost all = extras.deep_view();
    let mut i: usize = 0;
    proof {
        assert(all.skip(0) =~= all);
    }
    while i < extras.len()
        invariant
            all == extras.deep_view(),
            i <= all.len(),
            add_all_unique(paths.deep_view(), all.skip(i as int)) == add_all_unique(
                old(paths).deep_view(),
                all,
            ),
        decreases extras@.len() - i,
    {
        let ghost rem = all.skip(i as int);
        let ghost before = paths.deep_view();
        proof {
            assert(rem[0] == all[i as int]);
            assert(rem.skip(1) =~= all.skip(i + 1));
            assert(add_all_unique(before, rem) == add_all_unique(
                add_unique(before, rem[0]),
                rem.skip(1),
            ));
        }
        let entry = extras[i].clone();
        proof {
            assert(entry@ == all[i as int]);
        }
        if !entries_contain(paths, &entry) {
            paths.push(entry);
            proof {
                assert(paths.deep_view() =~= before.push(all[i as int]));
                assert(paths.deep_view() == add_unique(before, all[i as int]));
            }
        } else {
            proof {
                assert(add_unique(before, all[i as int]) == before);
            }
        }
        i = i + 1;
    }
    proof {
        assert(all.skip(all.len() as int) =~= Seq::<Seq<char>>::empty());
    }
}

/// Joins the entries with colons.
fn join_entries(v: &Vec<String>) -> (r: String)
    ensures
        r@ == join_colon(v.deep_view()),
{
    let ghost all = v.deep_view();
    let mut out = String::new();
    if v.len() == 0 {
        proof {
            assert(out@ =~= join_colon(all));
        }
        return out;
    }
    out.append(v[0].as_str());
    proof {
        assert(all[0] == v@[0]@);
        assert(out@ =~= all[0]);
        if all.len() > 1 {
            assert(join_colon(all) == all[0] + ":"@ + join_colon(all.skip(1)));
            assert(join_colon(all) =~= out@ + ":"@ + join_colon(all.skip(1)));
        }
    }
    let mut i: usize = 1;
    while i < v.len()
        invariant
            all == v.deep_view(),
            1 <= i <= all.len(),
            i == all.len() ==> out@ == join_colon(all),
            i < all.len() ==> join_colon(all) == out@ + ":"@ + join_colon(all.skip(i as int)),
        decreases v@.len() - i,
    {
        let ghost rem = all.skip(i as int);
        out.append(":");
        out.append(v[i].as_str());
        proof {
            assert(rem[0] == all[i as int]);
            assert(all[i as int] == v@[i as int]@);
            assert(rem.skip(1) =~= all.skip(i + 1));
            if i + 1 == all.len() {
                assert(rem.len() == 1);
                assert(join_colon(rem) == rem[0]);
                assert(out@ =~= join_colon(all));
            } else {
                assert(join_colon(rem) == rem[0] + ":"@ + join_colon(all.skip(i + 1)));
                assert(join_colon(all) =~= out@ + ":"@ + join_colon(all.skip(i + 1)));
            }
        }
        i = i + 1;
    }
    out
}

/// The directory the caller scans for installed versions of the companion
/// runtime, one entry per version.
pub fn nvm_root_dir(home: &String) -> (r: String)
    ensures
        r@ == nvm_node_root(home@),
{
    let mut d = home.clone();
    d.append("/.nvm/versions/node");
    d
}

/// The directory part of a path, if it has one.
pub fn parent_dir(s: &str) -> (r: Option<String>)
    ensures
        match r {
            Some(p) => parent_dir_of(s@) matches Some(q) && p@ == q,
            None => parent_dir_of(s@) is None,
        },
{
    let n = s.unicode_len();
    let mut b = n;
    proof {
        assert(s@.take(n as int) =~= s@);
    }
    while b > 0 && s.get_char(b - 1) != '/'
        invariant
            b <= n,
            n == s@.len(),
            last_slash(s@) == last_slash(s@.take(b as int)),
        decreases b,
    {
        proof {
            let t = s@.take(b as int);
            assert(t[t.len() - 1] == s@[b - 1]);
            assert(t.drop_last() =~= s@.take(b - 1));
        }
        b = b - 1;
    }
    if b == 0 {
        proof {
            assert(s@.take(0) =~= Seq::<char>::empty());
            assert(last_slash(s@.take(0)) == -1);
        }
        None
    } else {
        proof {
            let t = s@.take(b as int);
            assert(t[t.len() - 1] == s@[b - 1]);
            assert(last_slash(t) == b - 1);
        }
        let mut e = b - 1;
        while e > 0 && s.get_char(e - 1) == '/'
            invariant
                e <= b - 1 <= n,
                n == s@.len(),
                drop_trailing_slashes(s@.take(b - 1)) == drop_trailing_slashes(s@.take(e as int)),
            decreases e,
        {
            proof {
                let t = s@.take(e as int);
                assert(t[t.len() - 1] == s@[e - 1]);
                assert(t.drop_last() =~= s@.take(e - 1));
            }
            e = e - 1;
        }
        if e == 0 {
            proof {
                assert(s@.take(0) =~= Seq::<char>::empty());
                assert(drop_trailing_slashes(s@.take(0)).len() == 0);
            }
            Some(String::from_str("/"))
        } else {
            proof {
                let t = s@.take(e as int);
                assert(t[t.len() - 1] == s@[e - 1]);
                assert(drop_trailing_slashes(t) == t);
                assert(s@.subrange(0, e as int) =~= s@.take(e as int));
            }
            let piece = s.substring_char(0, e);
            Some(piece.to_owned())
        }
    }
}

/// The binary setting that applies: a non-blank override wins, else the
/// stored default, if any.
pub fn effective_bin(requested: Option<String>, default_bin: Option<String>) -> (r: Option<
    String,
>)
    ensures
        match requested {
            Some(b) => if trimmed(b@).len() > 0 {
                r matches Some(x) && x@ == b@
            } else {
                r == default_bin
            },
            None => r == default_bin,
        },
{
    match requested {
        Some(b) => {
            let t = trim_ascii(b.as_str());
            if t.as_str().is_empty() {
                default_bin
            } else {
                Some(b)
            }
        },
        None => default_bin,
    }
}

/// The binary to invoke: a non-blank override, else the default name.
pub fn resolve_bin(codex_bin: Option<&String>) -> (r: String)
    ensures
        match codex_bin {
            Some(b) => if trimmed(b@).len() > 0 {
                r@ == b@
            } else {
                r@ == "codex"@
            },
            None => r@ == "codex"@,
        },
{
    match codex_bin {
        Some(b) => {
            let t = trim_ascii(b.as_str());
            if t.as_str().is_empty() {
                String::from_str("codex")
            } else {
                b.clone()
            }
        },
        None => String::from_str("codex"),
    }
}

/// Builds the PATH for the spawned child from the host's PATH value, the
/// home directory if known, the version-manager `bin` directories the caller
/// discovered under the scan root, and the binary override if configured.
pub fn build_codex_path_env(
    path_var: &str,
    home: Option<&String>,
    nvm_bin_dirs: &Vec<String>,
    codex_bin: Option<&String>,
) -> (r: Option<String>)
    ensures
        ({
            let spec_home = match home {
                Some(h) => Some(h@),
                None => None,
            };
            let spec_bin = match codex_bin {
                Some(b) => Some(b@),
                None => None,
            };
            match r {
                Some(joined) => augmented_path(
                    path_var@,
                    spec_home,
                    nvm_bin_dirs.deep_view(),
                    spec_bin,
                ) matches Some(j) && joined@ == j,
                None => augmented_path(
                    path_var@,
                    spec_home,
                    nvm_bin_dirs.deep_view(),
                    spec_bin,
                ) is None,
            }
        }),
{
    let mut paths = split_path(path_var);
    let mut extras: Vec<String> = Vec::new();
    extras.push(String::from_str("/opt/homebrew/bin"));
    extras.push(String::from_str("/usr/local/bin"));
    extras.push(String::from_str("/usr/bin"));
    extras.push(String::from_str("/bin"));
    extras.push(String::from_str("/usr/sbin"));
    extras.push(String::from_str("/sbin"));
    proof {
        assert(extras.deep_view() =~= default_dirs());
    }
    match home {
        Some(h) => {
            let mut d1 = h.clone();
            d1.append("/.local/bin");
            extras.push(d1);
            let mut d2 = h.clone();
            d2.append("/.cargo/bin");
            extras.push(d2);
            let mut d3 = h.clone();
            d3.append("/.bun/bin");
            extras.push(d3);
            proof {
                assert(extras.deep_view() =~= default_dirs() + home_dirs(h@));
                assert(nvm_bin_dirs.deep_view().take(0) =~= Seq::<Seq<char>>::empty());
                assert(extras.deep_view() =~= default_dirs() + home_dirs(h@)
                    + nvm_bin_dirs.deep_view().take(0));
            }
            let mut k: usize = 0;
            while k < nvm_bin_dirs.len()
                invariant
                    k <= nvm_bin_dirs@.len(),
                    extras.deep_view() == default_dirs() + home_dirs(h@)
                        + nvm_bin_dirs.deep_view().take(k as int),
                decreases nvm_bin_dirs@.len() - k,
            {
                let ghost prev = extras.deep_view();
                extras.push(nvm_bin_dirs[k].clone());
                proof {
                    assert(nvm_bin_dirs.deep_view()[k as int] == nvm_bin_dirs@[k as int]@);
                    assert(extras.deep_view() =~= prev.push(nvm_bin_dirs.deep_view()[k as int]));
                    assert(nvm_bin_dirs.deep_view().take(k + 1) =~= nvm_bin_dirs.deep_view().take(
                        k as int,
                    ).push(nvm_bin_dirs.deep_view()[k as int]));
                    assert(extras.deep_view() =~= default_dirs() + home_dirs(h@)
                        + nvm_bin_dirs.deep_view().take(k + 1));
                }
                k = k + 1;
            }
            proof {
                assert(nvm_bin_dirs.deep_view().take(nvm_bin_dirs@.len() as int)
                    =~= nvm_bin_dirs.deep_view());
                assert(extras.deep_view() =~= default_dirs() + home_dirs(h@)
                    + nvm_bin_dirs.deep_view());
            }
        },
        None => {},
    }
    match codex_bin {
        Some(b) => {
            let t = trim_ascii(b.as_str());
            if !t.as_str().is_empty() {
                match parent_dir(b.as_str()) {
                    Some(p) => {
                        let ghost prev = extras.deep_view();
                        extras.push(p);
                        proof {
                            assert(extras.deep_view() =~= prev.push(
                                parent_dir_of(b@)->Some_0,
                            ));
                        }
                    },
                    None => {},
                }
            }
        },
        None => {},
    }
    proof {
        let spec_home = match home {
            Some(h) => Some(h@),
            None => None,
        };
        let spec_bin = match codex_bin {
            Some(b) => Some(b@),
            None => None,
        };
        assert(extras.deep_view() =~= resolver_extras(
            spec_home,
            nvm_bin_dirs.deep_view(),
            spec_bin,
        ));
    }
    append_unique(&mut paths, extras);
    if paths.len() == 0 {
        None
    } else {
        Some(join_entries(&paths))
    }
}

} // verus!
