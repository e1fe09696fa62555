//! Argument handling for the dispatcher's entry points: the
//! package-manager delegation, the interception of a request to create a
//! virtual environment at a custom path, and the diagnostic lines.

use vstd::prelude::*;

use crate::path::{render_spec, texts, AbsPath};
use crate::text::str_eq;

verus! {

/// The arguments the package-manager entry point delegates: the module
/// invocation of `pip`, followed by the caller's arguments untouched.
pub fn pip_command_args(args: &Vec<String>) -> (r: Vec<String>)
    ensures
        texts(r@) == seq!["-m"@, "pip"@] + texts(args@),
{
    let mut r: Vec<String> = Vec::new();
    r.push("-m".to_owned());
    r.push("pip".to_owned());
    let mut i: usize = 0;
    proof {
        assert(texts(r@) =~= seq!["-m"@, "pip"@] + texts(args@).subrange(0, 0));
    }
    while i < args.len()
        invariant
            i <= args@.len(),
            texts(r@) == seq!["-m"@, "pip"@] + texts(args@).subrange(0, i as int),
        decreases args@.len() - i,
    {
        let a: String = args[i].as_str().to_owned();
        let ghost prev = r@;
        r.push(a);
        proof {
            assert(texts(prev).len() == 2 + i);
            assert(prev.len() == 2 + i);
            let full = seq!["-m"@, "pip"@] + texts(args@).subrange(0, i + 1);
            assert forall|j: int| 0 <= j < prev.len() + 1 implies texts(r@)[j] == full[j] by {
                if j < prev.len() {
                    assert(r@[j] == prev[j]);
                    assert(texts(prev)[j] == full[j]);
                } else {
                    assert(r@[j] == a);
                }
            }
            assert(texts(r@) =~= full);
        }
        i = i + 1;
    }
    proof {
        assert(texts(args@).subrange(0, args@.len() as int) =~= texts(args@));
    }
    r
}

/// The words of `s` joined with single spaces.
pub open spec fn joined(s: Seq<Seq<char>>) -> Seq<char>
    decreases s.len(),
{
    if s.len() == 0 {
        Seq::empty()
    } else if s.len() == 1 {
        s[0]
    } else {
        joined(s.drop_last()) + " "@ + s.last()
    }
}

/// Joins strings with single spaces.
pub fn join_spaces(args: &Vec<String>, from: usize) -> (r: String)
    requires
        from <= args@.len(),
    ensures
        r@ == joined(texts(args@).subrange(from as int, args@.len() as int)),
{
    let mut r: String = "".to_owned();
    proof {
        reveal_strlit("");
        assert(r@ =~= joined(texts(args@).subrange(from as int, from as int)));
    }
    let mut i: usize = from;
    while i < args.len()
        invariant
            from <= i <= args@.len(),
            r@ == joined(texts(args@).subrange(from as int, i as int)),
        decreases args@.len() - i,
    {
        if i > from {
            r.append(" ");
        }
        r.append(args[i].as_str());
        proof {
            let part = texts(args@).subrange(from as int, i + 1);
            assert(part.len() == i + 1 - from);
            if i == from {
                assert(r@ =~= part[0]);
            } else {
                assert(part.drop_last() =~= texts(args@).subrange(from as int, i as int));
                assert(r@ =~= joined(part.drop_last()) + " "@ + part.last());
            }
        }
        i = i + 1;
    }
    r
}

/// The path a venv-creation request asks for, where the request names one:
/// the arguments open with the module invocation of `venv`, carry a path
/// after it, and that path is not the conventional default name.
pub open spec fn override_request_spec(args: Seq<Seq<char>>) -> Option<Seq<char>> {
    if args.len() >= 3 && args[0] == "-m"@ && args[1] == "venv"@ {
        let p = joined(args.subrange(2, args.len() as int));
        if p == "env"@ {
            None
        } else {
            Some(p)
        }
    } else {
        None
    }
}

/// Decides whether the forwarded arguments ask for a virtual environment
/// at a custom path; such a path is to be written to the override file
/// before the arguments are delegated unchanged.
pub fn venv_create_override(args: &Vec<String>) -> (r: Option<String>)
    ensures
        match r {
            Some(p) => override_request_spec(texts(args@)) == Some(p@),
            None => override_request_spec(texts(args@)) is None,
        },
{
    if args.len() >= 3 && str_eq(args[0].as_str(), "-m") && str_eq(args[1].as_str(), "venv") {
        let p = join_spaces(args, 2);
        if str_eq(p.as_str(), "env") {
            None
        } else {
            Some(p)
        }
    } else {
        None
    }
}

/// The diagnostic line reporting the outcome of marker discovery.
pub fn mod_diagnostic(found: &Option<AbsPath>) -> (r: String)
    ensures
        match found {
            Some(d) => r@ == "mod: "@ + render_spec(d@),
            None => r@ == "mod: none"@,
        },
{
    match found {
        Some(d) => {
            let mut r: String = "mod: ".to_owned();
            r.append(d.render().as_str());
            r
        },
        None => "mod: none".to_owned(),
    }
}

/// The diagnostic line reporting the resolved virtual environment.
pub fn venv_diagnostic(venv: &AbsPath) -> (r: String)
    ensures
        r@ == "venv: "@ + render_spec(venv@),
{
    let mut r: String = "venv: ".to_owned();
    r.append(venv.render().as_str());
    r
}

} // verus!
