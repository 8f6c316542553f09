//! The persisted settings: where to search, how deep, and which glyphs to use.

use vstd::prelude::*;
use vstd::string::StringExecFns;
use crate::text::texts;

verus! {

/// The settings a scan runs with.
#[derive(Debug, PartialEq, Eq)]
pub struct Config {
    pub version: String,
    pub search_depth: i8,
    pub ascii_mode: bool,
    pub project_paths: Vec<String>,
}

/// `roots` with `fp` behind them, unless it is among them already.
pub open spec fn with_path(roots: Seq<Seq<char>>, fp: Seq<char>) -> Seq<Seq<char>> {
    if roots.contains(fp) {
        roots
    } else {
        roots.push(fp)
    }
}

/// `roots` without any occurrence of `fp`.
pub open spec fn without_path(roots: Seq<Seq<char>>, fp: Seq<char>) -> Seq<Seq<char>> {
    roots.filter(|p: Seq<char>| p != fp)
}

/// Whether `fp` is among `paths`.
pub fn found_path_in_paths(paths: &Vec<String>, fp: &str) -> (found: bool)
    ensures
        found == texts(paths@).contains(fp@),
{
    let wanted = String::from_str(fp);
    let mut i: usize = 0;
    while i < paths.len()
        invariant
            i <= paths.len(),
            wanted@ == fp@,
            forall|j: int| 0 <= j < i ==> paths@[j]@ != fp@,
        decreases paths.len() - i,
    {
        if paths[i] == wanted {
            assert(texts(paths@)[i as int] == fp@);
            return true;
        }
        i += 1;
    }
    false
}

impl Config {
    /// Whether `other` differs from this configuration in its roots at most.
    pub open spec fn same_settings(&self, other: &Config) -> bool {
        &&& self.version == other.version
        &&& self.search_depth == other.search_depth
        &&& self.ascii_mode == other.ascii_mode
    }

    /// The texts of the configured search roots, in order.
    pub open spec fn roots(&self) -> Seq<Seq<char>> {
        texts(self.project_paths@)
    }

    /// A configuration with no search roots, depth five and Unicode glyphs.
    pub fn defaults(version: &str) -> (config: Config)
        ensures
            config.version@ == version@,
            config.search_depth == 5,
            !config.ascii_mode,
            config.roots() == Seq::<Seq<char>>::empty(),
    {
        let config = Config {
            version: String::from_str(version),
            search_depth: 5,
            ascii_mode: false,
            project_paths: Vec::new(),
        };
        assert(config.roots() =~= Seq::<Seq<char>>::empty());
        config
    }

    /// Appends `fp` to the search roots unless it is one already.
    pub fn add_path(&mut self, fp: &str) -> (this: &mut Self)
        ensures
            *final(self) == *final(this),
            this.roots() == with_path(old(self).roots(), fp@),
            this.version == old(self).version,
            this.search_depth == old(self).search_depth,
            this.ascii_mode == old(self).ascii_mode,
    {
        if !found_path_in_paths(&self.project_paths, fp) {
            self.project_paths.push(String::from_str(fp));
            assert(self.roots() =~= old(self).roots().push(fp@));
        }
        self
    }

    /// Drops every search root equal to `fp`; the others keep their order.
    pub fn remove_path(&mut self, fp: &str) -> (this: &mut Self)
        ensures
            *final(self) == *final(this),
            this.roots() == without_path(old(self).roots(), fp@),
            this.version == old(self).version,
            this.search_depth == old(self).search_depth,
            this.ascii_mode == old(self).ascii_mode,
    {
        let wanted = String::from_str(fp);
        let ghost keep = |p: Seq<char>| p != fp@;
        let ghost before = self.roots();
        let mut kept: Vec<String> = Vec::new();
        let mut i: usize = 0;
        proof {
            reveal(Seq::filter);
            assert(before.subrange(0, 0) =~= Seq::<Seq<char>>::empty());
            assert(texts(kept@) =~= Seq::<Seq<char>>::empty());
        }
        while i < self.project_paths.len()
            invariant
                i <= self.project_paths.len(),
                wanted@ == fp@,
                keep == |p: Seq<char>| p != fp@,
                before == texts(self.project_paths@),
                texts(kept@) == before.subrange(0, i as int).filter(keep),
            decreases self.project_paths.len() - i,
        {
            let ghost done = before.subrange(0, i as int);
            let ghost sofar = texts(kept@);
            proof {
                reveal(Seq::filter);
                assert(before.subrange(0, i + 1).drop_last() =~= done);
                assert(before.subrange(0, i + 1).last() == before[i as int]);
            }
            if self.project_paths[i] != wanted {
                kept.push(self.project_paths[i].clone());
                assert(texts(kept@) =~= sofar.push(before[i as int]));
            }
            i += 1;
        }
        assert(before.subrange(0, i as int) =~= before);
        self.project_paths = kept;
        self
    }

    /// Forgets every search root.
    pub fn purge_paths(&mut self) -> (this: &mut Self)
        ensures
            *final(self) == *final(this),
            this.roots() == Seq::<Seq<char>>::empty(),
            this.version == old(self).version,
            this.search_depth == old(self).search_depth,
            this.ascii_mode == old(self).ascii_mode,
    {
        self.project_paths = Vec::new();
        assert(self.roots() =~= Seq::<Seq<char>>::empty());
        self
    }

    /// Chooses between ASCII and Unicode glyphs.
    pub fn ascii_enabled(&mut self, ascii_mode_enabled: bool) -> (this: &mut Self)
        ensures
            *final(self) == *final(this),
            this.ascii_mode == ascii_mode_enabled,
            this.version == old(self).version,
            this.search_depth == old(self).search_depth,
            this.project_paths == old(self).project_paths,
    {
        self.ascii_mode = ascii_mode_enabled;
        self
    }

    /// Sets how many directory levels a scan descends.
    pub fn search_depth(&mut self, depth: i8) -> (this: &mut Self)
        ensures
            *final(self) == *final(this),
            this.search_depth == depth,
            this.version == old(self).version,
            this.ascii_mode == old(self).ascii_mode,
            this.project_paths == old(self).project_paths,
    {
        self.search_depth = depth;
        self
    }
}

} // verus!
