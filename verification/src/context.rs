//! The roots of one reconciliation run and path classification.

use vstd::prelude::*;
use crate::link::Link;
use crate::order::sort_by_state;
use crate::order::sorted_links;
use crate::probe::FsProbe;
use crate::probe::classify_spec;
use crate::state::PathState;

verus! {

/// The entries that one run starts from, in configuration order: the
/// i-th configured path, classified from the i-th probe snapshot,
/// with no corrective attempt recorded yet.
pub open spec fn classified_links_spec(c: Context, probes: Seq<FsProbe>) -> Seq<Link> {
    Seq::new(
        probes.len(),
        |i: int|
            Link {
                state: classify_spec(probes[i]),
                new_state: None,
                path: c.symlinks@[i],
            },
    )
}

/// The characters of the path separator.
pub open spec fn sep_spec() -> Seq<char> {
    seq!['/']
}

/// The characters of the fixed repository location under the home
/// root.
pub open spec fn repo_suffix_spec() -> Seq<char> {
    seq!['/', '.', 'd', 'o', 't', 'f', 'i', 'l', 'e', 's', '/', 'h', 'o', 'm', 'e']
}

/// The read-only context of one reconciliation run: the home root, the
/// repository root fixed beneath it, and the configured relative paths
/// that should be links from home into the repository.
pub struct Context {
    pub home: String,
    pub repo: String,
    pub symlinks: Vec<String>,
}

impl Context {
    /// Builds the run context from the home root and the configured
    /// relative paths. The repository root is always
    /// `<home>/.dotfiles/home`.
    pub fn new(home: String, symlinks: Vec<String>) -> (c: Context)
        ensures
            c.home == home,
            c.symlinks == symlinks,
            c.repo@ == home@ + repo_suffix_spec(),
    {
        let repo = home.clone().concat("/.dotfiles/home");
        proof {
            reveal_strlit("/.dotfiles/home");
            assert(repo@ =~= home@ + repo_suffix_spec());
        }
        Context { home, repo, symlinks }
    }

    /// The location in the home directory where the given relative
    /// path should be a link.
    pub fn home_path(&self, path: &String) -> (r: String)
        ensures
            r@ == self.home@ + sep_spec() + path@,
    {
        let r = self.home.clone().concat("/").concat(path.as_str());
        proof {
            reveal_strlit("/");
            assert(r@ =~= self.home@ + sep_spec() + path@);
        }
        r
    }

    /// The repository target that the link for the given relative path
    /// should point at.
    pub fn repo_path(&self, path: &String) -> (r: String)
        ensures
            r@ == self.repo@ + sep_spec() + path@,
    {
        let r = self.repo.clone().concat("/").concat(path.as_str());
        proof {
            reveal_strlit("/");
            assert(r@ =~= self.repo@ + sep_spec() + path@);
        }
        r
    }

    /// Builds one classified entry per configured path from the probe
    /// snapshots, given in configuration order, and hands them back
    /// sorted by `(initial state, path)`: exactly the configured
    /// entries, no more and no fewer.
    pub fn get_linked_paths(&self, probes: Vec<FsProbe>) -> (r: Vec<Link>)
        requires
            probes@.len() == self.symlinks@.len(),
        ensures
            r@.len() == probes@.len(),
            r@.to_multiset() == classified_links_spec(*self, probes@).to_multiset(),
            sorted_links(false, r@),
            forall|k: int| 0 <= k < r@.len() ==> r@[k].new_state is None,
    {
        let ghost all_probes = probes@;
        let mut probes = probes;
        let mut links: Vec<Link> = Vec::new();
        let n = self.symlinks.len();
        proof {
            assert(probes@ =~= all_probes.skip(0));
        }
        let mut i: usize = 0;
        while i < n
            invariant
                i <= n,
                n == self.symlinks@.len(),
                all_probes.len() == n,
                probes@ == all_probes.skip(i as int),
                links@.len() == i,
                forall|k: int|
                    0 <= k < i ==> links@[k] == (Link {
                        state: classify_spec(all_probes[k]),
                        new_state: None,
                        path: self.symlinks@[k],
                    }),
            decreases n - i,
        {
            let path = self.symlinks[i].clone();
            proof {
                assert(probes@[0] == all_probes[i as int]);
            }
            let probe = probes.remove(0);
            proof {
                assert(probes@ =~= all_probes.skip(i + 1));
            }
            let link = Link::new(path, self, probe);
            links.push(link);
            i += 1;
        }
        proof {
            assert(links@ =~= classified_links_spec(*self, all_probes));
        }
        sort_by_state(&mut links);
        proof {
            broadcast use vstd::seq_lib::group_to_multiset_ensures;

            let spec_links = classified_links_spec(*self, all_probes);
            assert forall|k: int| 0 <= k < links@.len() implies links@[k].new_state is None by {
                let l = links@[k];
                assert(links@.contains(l));
                assert(links@.to_multiset().count(l) > 0);
                assert(spec_links.to_multiset().count(l) > 0);
                assert(spec_links.contains(l));
                let t = choose|t: int| 0 <= t < spec_links.len() && spec_links[t] == l;
                assert(spec_links[t].new_state is None);
            }
        }
        links
    }

    /// Classifies one managed path from its probe snapshot.
    ///
    /// The precedence of the checks is the heart of the classifier: an
    /// existing location is compared by canonical resolution before
    /// the link check, so a link that resolves to the right target is
    /// `Fine` even though it is a link; an absent location is checked
    /// for a link without following it, so a dangling link is `Broken`
    /// rather than `Missing`. Any failed resolution short-circuits to
    /// `Error` with its message.
    pub fn state_for_path(&self, probe: FsProbe) -> (s: PathState)
        ensures
            s == classify_spec(probe),
    {
        match probe {
            FsProbe::Absent { is_link } => {
                if !is_link {
                    PathState::Missing
                } else {
                    PathState::Broken
                }
            },
            FsProbe::Present { is_link, canonical_home, canonical_repo } => {
                match canonical_home {
                    Err(e) => PathState::Error(e),
                    Ok(home_target) => match canonical_repo {
                        Err(e) => PathState::Error(e),
                        Ok(repo_target) => {
                            if home_target == repo_target {
                                PathState::Fine
                            } else if is_link {
                                PathState::BadLink
                            } else {
                                PathState::Conflict
                            }
                        },
                    },
                }
            },
        }
    }
}

} // verus!
