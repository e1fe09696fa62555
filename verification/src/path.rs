//! Absolute filesystem paths, modelled as their component names.
//!
//! An absolute path is the sequence of directory names below the filesystem
//! root; the root itself is the empty sequence. Rendering joins the
//! components with `/`, which is exactly how the dispatcher's host spells
//! the paths it probes.

use vstd::prelude::*;

verus! {

/// The platform family the dispatcher runs on. It decides the name of a
/// virtual environment's executable directory and the separator of the
/// `PATH` variable's entry list.
#[derive(Clone, Copy, PartialEq, Eq, Structural)]
pub enum Platform {
    Posix,
    Windows,
}

impl Platform {
    /// The name of the directory holding a virtual environment's executables.
    pub open spec fn bin_dir_spec(self) -> Seq<char> {
        match self {
            Platform::Posix => "bin"@,
            Platform::Windows => "Scripts"@,
        }
    }

    /// Returns the executable-directory name for this platform.
    pub fn bin_dir(&self) -> (r: String)
        ensures
            r@ == self.bin_dir_spec(),
    {
        match self {
            Platform::Posix => "bin".to_owned(),
            Platform::Windows => "Scripts".to_owned(),
        }
    }

    /// The separator between entries of the `PATH` variable.
    pub open spec fn path_sep_spec(self) -> Seq<char> {
        match self {
            Platform::Posix => ":"@,
            Platform::Windows => ";"@,
        }
    }

    /// Returns the `PATH` entry separator for this platform.
    pub fn path_sep(&self) -> (r: String)
        ensures
            r@ == self.path_sep_spec(),
    {
        match self {
            Platform::Posix => ":".to_owned(),
            Platform::Windows => ";".to_owned(),
        }
    }
}

/// The views of a sequence of strings.
pub open spec fn texts(v: Seq<String>) -> Seq<Seq<char>> {
    v.map_values(|s: String| s@)
}

/// An absolute path, as the directory names below the filesystem root.
pub struct AbsPath {
    pub components: Vec<String>,
}

impl View for AbsPath {
    type V = Seq<Seq<char>>;

    open spec fn view(&self) -> Seq<Seq<char>> {
        texts(self.components@)
    }
}

/// The text of an absolute path: `/` for the root, otherwise the
/// components each preceded by `/`.
pub open spec fn render_spec(cs: Seq<Seq<char>>) -> Seq<char>
    decreases cs.len(),
{
    if cs.len() == 0 {
        seq!['/']
    } else if cs.len() == 1 {
        seq!['/'] + cs[0]
    } else {
        render_spec(cs.drop_last()) + seq!['/'] + cs.last()
    }
}

impl AbsPath {
    /// The filesystem root.
    pub fn root() -> (r: AbsPath)
        ensures
            r@ == Seq::<Seq<char>>::empty(),
    {
        let r = AbsPath { components: Vec::new() };
        proof {
            assert(r@ =~= Seq::<Seq<char>>::empty());
        }
        r
    }

    /// A copy of this path.
    pub fn clone_path(&self) -> (r: AbsPath)
        ensures
            r@ == self@,
    {
        self.prefix(self.components.len())
    }

    /// The path one name below this one.
    pub fn child(&self, name: &str) -> (r: AbsPath)
        ensures
            r@ == self@.push(name@),
    {
        let mut r = self.prefix(self.components.len());
        proof {
            assert(self@.subrange(0, self@.len() as int) =~= self@);
        }
        r.components.push(name.to_owned());
        proof {
            assert(r@ =~= self@.push(name@));
        }
        r
    }

    /// The ancestor made of the first `n` components.
    pub fn prefix(&self, n: usize) -> (r: AbsPath)
        requires
            n <= self.components@.len(),
        ensures
            r@ == self@.subrange(0, n as int),
    {
        let mut cs: Vec<String> = Vec::new();
        let mut i: usize = 0;
        while i < n
            invariant
                i <= n <= self.components@.len(),
                texts(cs@) == texts(self.components@).subrange(0, i as int),
            decreases n - i,
        {
            let c: String = self.components[i].as_str().to_owned();
            let ghost prev = cs@;
            cs.push(c);
            proof {
                assert(texts(prev).len() == i);
                assert(prev.len() == i);
                assert forall|j: int| 0 <= j < i + 1 implies texts(cs@)[j] == texts(
                    self.components@,
                ).subrange(0, i + 1)[j] by {
                    if j < i {
                        assert(texts(prev)[j] == texts(self.components@).subrange(0, i as int)[j]);
                        assert(cs@[j] == prev[j]);
                    } else {
                        assert(texts(prev).len() == i);
                        assert(prev.len() == i);
                        assert(cs@[j] == c);
                    }
                }
                assert(texts(cs@) =~= texts(self.components@).subrange(0, i + 1));
            }
            i = i + 1;
        }
        let r = AbsPath { components: cs };
        proof {
            assert(r@ =~= self@.subrange(0, n as int));
        }
        r
    }

    /// Writes the path out as text.
    pub fn render(&self) -> (r: String)
        ensures
            r@ == render_spec(self@),
    {
        proof {
            reveal_strlit("/");
            reveal_strlit("");
        }
        if self.components.len() == 0 {
            let r = "/".to_owned();
            proof {
                assert(r@ =~= render_spec(self@));
            }
            return r;
        }
        let mut r: String = "".to_owned();
        let mut i: usize = 0;
        while i < self.components.len()
            invariant
                i <= self.components@.len(),
                i == 0 ==> r@ == Seq::<char>::empty(),
                i > 0 ==> r@ == render_spec(self@.subrange(0, i as int)),
            decreases self.components@.len() - i,
        {
            proof {
                reveal_strlit("/");
            }
            r.append("/");
            r.append(self.components[i].as_str());
            proof {
                let full = self@.subrange(0, i + 1);
                assert(full.len() == i + 1);
                if i == 0 {
                    assert(r@ =~= seq!['/'] + full[0]);
                } else {
                    assert(full.drop_last() =~= self@.subrange(0, i as int));
                    assert(r@ =~= render_spec(full.drop_last()) + seq!['/'] + full.last());
                }
            }
            i = i + 1;
        }
        proof {
            assert(self@.subrange(0, self@.len() as int) =~= self@);
        }
        r
    }
}

/// Descends into the directory that holds a virtual environment's
/// executables, named for the platform.
pub fn append_venv_bin_path(p: &mut AbsPath, platform: Platform)
    ensures
        final (p)@ == old(p)@.push(platform.bin_dir_spec()),
{
    let d = platform.bin_dir();
    p.components.push(d);
    proof {
        assert(p@ =~= old(p)@.push(platform.bin_dir_spec()));
    }
}

} // verus!
