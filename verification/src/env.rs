//! The child process environment.
//!
//! An environment is a list of variable assignments, looked up by name with
//! the first match winning. The builder puts its own assignments first and
//! never copies the parent's entry for a name it sets or removes, so a
//! parent list without repeated names yields a child list without them.

use vstd::prelude::*;

use crate::path::{append_venv_bin_path, render_spec, AbsPath, Platform};
use crate::text::str_eq;

verus! {

/// The value of variable `k` in the assignment list `s`: the first match.
pub open spec fn lookup(s: Seq<(String, String)>, k: Seq<char>) -> Option<Seq<char>>
    decreases s.len(),
{
    if s.len() == 0 {
        None
    } else if s[0].0@ == k {
        Some(s[0].1@)
    } else {
        lookup(s.skip(1), k)
    }
}

/// A process environment: variable names and their values.
pub struct Env {
    pub pairs: Vec<(String, String)>,
}

impl Env {
    /// The value this environment gives variable `k`.
    pub open spec fn var(self, k: Seq<char>) -> Option<Seq<char>> {
        lookup(self.pairs@, k)
    }

    /// Looks a variable up by name.
    pub fn get<'a>(&'a self, k: &str) -> (r: Option<&'a String>)
        ensures
            match r {
                Some(v) => self.var(k@) == Some(v@),
                None => self.var(k@) is None,
            },
    {
        let mut i: usize = 0;
        proof {
            assert(self.pairs@.skip(0) =~= self.pairs@);
        }
        while i < self.pairs.len()
            invariant
                i <= self.pairs@.len(),
                lookup(self.pairs@, k@) == lookup(self.pairs@.skip(i as int), k@),
            decreases self.pairs@.len() - i,
        {
            proof {
                assert(self.pairs@.skip(i as int)[0] == self.pairs@[i as int]);
            }
            if str_eq(self.pairs[i].0.as_str(), k) {
                return Some(&self.pairs[i].1);
            }
            proof {
                assert(self.pairs@.skip(i as int).skip(1) =~= self.pairs@.skip(i + 1));
            }
            i = i + 1;
        }
        None
    }
}

proof fn lemma_lookup_push_at(s: Seq<(String, String)>, p: (String, String), k: Seq<char>)
    ensures
        lookup(s.push(p), k) == (if lookup(s, k) is Some {
            lookup(s, k)
        } else if p.0@ == k {
            Some(p.1@)
        } else {
            None
        }),
    decreases s.len(),
{
    let t = s.push(p);
    if s.len() == 0 {
        assert(t[0] == p);
        assert(t.skip(1) =~= Seq::<(String, String)>::empty());
        assert(lookup(t.skip(1), k) is None);
        assert(lookup(s, k) is None);
    } else {
        assert(t[0] == s[0]);
        if s[0].0@ != k {
            assert(t.skip(1) =~= s.skip(1).push(p));
            lemma_lookup_push_at(s.skip(1), p, k);
        }
    }
}

/// Appending an assignment changes only a variable that had no value yet.
proof fn lemma_lookup_push(s: Seq<(String, String)>, p: (String, String))
    ensures
        forall|k: Seq<char>|
            #[trigger] lookup(s.push(p), k) == (if lookup(s, k) is Some {
                lookup(s, k)
            } else if p.0@ == k {
                Some(p.1@)
            } else {
                None
            }),
{
    assert forall|k: Seq<char>|
        #[trigger] lookup(s.push(p), k) == (if lookup(s, k) is Some {
            lookup(s, k)
        } else if p.0@ == k {
            Some(p.1@)
        } else {
            None
        }) by {
        lemma_lookup_push_at(s, p, k);
    }
}

/// Whether the builder drops variable `k` of the parent environment in
/// favour of a value of its own.
pub open spec fn overridden(k: Seq<char>, venv_resolved: bool) -> bool {
    k == "PYTHONPATH"@ || (venv_resolved && (k == "VIRTUAL_ENV"@ || k == "PATH"@ || k
        == "PYTHONHOME"@))
}

/// Builds the environment the delegated command runs under.
///
/// `PYTHONPATH` is always set to the marker directory. With a virtual
/// environment resolved at `v`, `VIRTUAL_ENV` names it, `PYTHONHOME` is
/// removed so an inherited interpreter home cannot break the environment's
/// isolation, and the environment's executable directory is prepended to
/// the parent's `PATH` entry list; the parent must have a `PATH` then.
/// Every other variable keeps the parent's value, and with no virtual
/// environment resolved `PATH` keeps it too, byte for byte.
#[verifier::loop_isolation(false)]
pub fn build_env(base: &Env, marker_dir: &AbsPath, venv: &Option<AbsPath>, platform: Platform) -> (r:
    Env)
    requires
        venv is Some ==> base.var("PATH"@) is Some,
    ensures
        r.var("PYTHONPATH"@) == Some(render_spec(marker_dir@)),
        forall|k: Seq<char>|
            !overridden(k, venv is Some) ==> #[trigger] r.var(k) == base.var(k),
        venv is None ==> r.var("PATH"@) == base.var("PATH"@),
        match venv {
            Some(v) => {
                &&& r.var("VIRTUAL_ENV"@) == Some(render_spec(v@))
                &&& r.var("PYTHONHOME"@) is None
                &&& r.var("PATH"@) == Some(
                    render_spec(v@.push(platform.bin_dir_spec())) + platform.path_sep_spec()
                        + base.var("PATH"@)->0,
                )
            },
            None => true,
        },
{
    proof {
        // The four variable names are pairwise distinct: all lengths
        // differ but one pair, which differs in a character.
        reveal_strlit("PYTHONPATH");
        reveal_strlit("PYTHONHOME");
        reveal_strlit("VIRTUAL_ENV");
        reveal_strlit("PATH");
        assert("PYTHONPATH"@[6] != "PYTHONHOME"@[6]);
        assert("PATH"@.len() == 4);
        assert("PYTHONHOME"@.len() == 10);
        assert("PYTHONPATH"@.len() == 10);
        assert("VIRTUAL_ENV"@.len() == 11);
    }
    let mut out: Vec<(String, String)> = Vec::new();
    out.push(("PYTHONPATH".to_owned(), marker_dir.render()));
    match venv {
        Some(v) => {
            out.push(("VIRTUAL_ENV".to_owned(), v.render()));
            let mut bin = v.clone_path();
            append_venv_bin_path(&mut bin, platform);
            let mut newpath = bin.render();
            newpath.append(platform.path_sep().as_str());
            let oldpath: String = match base.get("PATH") {
                Some(p) => p.as_str().to_owned(),
                None => {
                    proof {
                        assert(false);
                    }
                    "".to_owned()
                },
            };
            newpath.append(oldpath.as_str());
            out.push(("PATH".to_owned(), newpath));
        },
        None => {},
    }
    let ghost pre = out@;
    proof {
        assert(lookup(pre, "PYTHONPATH"@) == Some(render_spec(marker_dir@)));
        if venv is Some {
            assert(pre.skip(1)[0] == pre[1]);
            assert(pre.skip(1).skip(1) =~= pre.skip(2));
            assert(pre.skip(2)[0] == pre[2]);
            assert(pre.skip(2).skip(1) =~= pre.skip(3));
            assert(pre.skip(3) =~= Seq::<(String, String)>::empty());
        } else {
            assert(pre.skip(1) =~= Seq::<(String, String)>::empty());
        }
        assert forall|k: Seq<char>|
            !overridden(k, venv is Some) implies #[trigger] lookup(pre, k) is None by {
            assert(pre[0].0@ != k);
            if venv is Some {
                assert(lookup(pre.skip(3), k) is None);
                assert(lookup(pre.skip(2), k) is None);
                assert(lookup(pre.skip(1), k) is None);
            } else {
                assert(lookup(pre.skip(1), k) is None);
            }
        }
        if venv is Some {
            let home = "PYTHONHOME"@;
            assert(pre[0].0@ != home);
            assert(pre[1].0@ != home);
            assert(pre[2].0@ != home);
            assert(lookup(pre.skip(3), home) is None);
            assert(lookup(pre.skip(2), home) is None);
            assert(lookup(pre.skip(1), home) is None);
            assert(lookup(pre, home) is None);
            assert(lookup(pre.skip(1), "VIRTUAL_ENV"@) == lookup(pre, "VIRTUAL_ENV"@));
            assert(lookup(pre.skip(2), "PATH"@) == lookup(pre.skip(1), "PATH"@));
            assert(lookup(pre, "PATH"@) == lookup(pre.skip(1), "PATH"@));
        }
    }
    let venv_resolved = venv.is_some();
    let mut i: usize = 0;
    while i < base.pairs.len()
        invariant
            i <= base.pairs@.len(),
            forall|k: Seq<char>|
                overridden(k, venv_resolved) ==> #[trigger] lookup(out@, k) == lookup(pre, k),
            forall|k: Seq<char>|
                !overridden(k, venv_resolved) ==> #[trigger] lookup(out@, k) == lookup(
                    base.pairs@.subrange(0, i as int),
                    k,
                ),
        decreases base.pairs@.len() - i,
    {
        let key = &base.pairs[i].0;
        let skip = str_eq(key.as_str(), "PYTHONPATH") || (venv_resolved && (str_eq(
            key.as_str(),
            "VIRTUAL_ENV",
        ) || str_eq(key.as_str(), "PATH") || str_eq(key.as_str(), "PYTHONHOME")));
        proof {
            assert(skip == overridden(key@, venv_resolved));
            assert(base.pairs@.subrange(0, i + 1) =~= base.pairs@.subrange(0, i as int).push(
                base.pairs@[i as int],
            ));
            lemma_lookup_push(base.pairs@.subrange(0, i as int), base.pairs@[i as int]);
        }
        if !skip {
            let ghost cur = out@;
            let kc: String = base.pairs[i].0.as_str().to_owned();
            let vc: String = base.pairs[i].1.as_str().to_owned();
            out.push((kc, vc));
            proof {
                lemma_lookup_push(cur, out@[cur.len() as int]);
            }
        }
        i = i + 1;
    }
    proof {
        assert(base.pairs@.subrange(0, base.pairs@.len() as int) =~= base.pairs@);
        assert(lookup(out@, "PYTHONPATH"@) == lookup(pre, "PYTHONPATH"@));
        if venv is Some {
            assert(lookup(out@, "VIRTUAL_ENV"@) == lookup(pre, "VIRTUAL_ENV"@));
            assert(lookup(out@, "PATH"@) == lookup(pre, "PATH"@));
            assert(lookup(out@, "PYTHONHOME"@) == lookup(pre, "PYTHONHOME"@));
        } else {
            assert(!overridden("PATH"@, venv is Some));
            assert(lookup(out@, "PATH"@) == lookup(
                base.pairs@.subrange(0, base.pairs@.len() as int),
                "PATH"@,
            ));
        }
    }
    Env { pairs: out }
}

} // verus!
