//! Resolution of the directory holding `docker-compose.yaml`.
//!
//! The launcher checks a short, ordered list of candidate directories and
//! uses the first one that holds the manifest. The caller probes the
//! filesystem and hands in, for each candidate, its path, a human-readable
//! description, and whether the manifest file exists there.

use vstd::prelude::*;

verus! {

use vstd::string::StringExecFns;
use crate::text::{join_spec, join_strings, views_of};

/// One candidate directory: where it is, how to describe it in the error
/// report, and whether `docker-compose.yaml` exists in it.
#[derive(Debug)]
pub struct ComposeCandidate {
    pub description: String,
    pub path: String,
    pub has_manifest: bool,
}

/// The descriptions of the candidates, in probe order.
pub open spec fn candidate_descriptions(cands: Seq<ComposeCandidate>) -> Seq<Seq<char>> {
    cands.map_values(|c: ComposeCandidate| c.description@)
}

/// Candidate `i` is the first one holding the manifest.
pub open spec fn is_first_manifest(cands: Seq<ComposeCandidate>, i: int) -> bool {
    &&& 0 <= i < cands.len()
    &&& cands[i].has_manifest
    &&& forall|j: int| 0 <= j < i ==> !(#[trigger] cands[j]).has_manifest
}

/// The report produced when no candidate holds the manifest: every
/// searched location, in the order it was tried.
pub open spec fn manifest_missing_text(descriptions: Seq<Seq<char>>) -> Seq<char> {
    "docker-compose.yaml not found. Searched in:\n"@ + join_spec(descriptions, "\n- "@)
}

/// Return the path of the first candidate directory that holds
/// `docker-compose.yaml`, searched in the given order; when none does,
/// report every searched location.
pub fn resolve_compose_dir(candidates: &Vec<ComposeCandidate>) -> (r: Result<String, String>)
    ensures
        r is Ok <==> exists|i: int|
            0 <= i < candidates@.len() && (#[trigger] candidates@[i]).has_manifest,
        r matches Ok(p) ==> exists|i: int|
            #[trigger] is_first_manifest(candidates@, i) && p@ == candidates@[i].path@,
        r matches Err(m) ==> m@ == manifest_missing_text(candidate_descriptions(candidates@)),
{
    let mut i: usize = 0;
    while i < candidates.len()
        invariant
            i <= candidates@.len(),
            forall|j: int| 0 <= j < i ==> !(#[trigger] candidates@[j]).has_manifest,
        decreases candidates@.len() - i,
    {
        if candidates[i].has_manifest {
            proof {
                assert(is_first_manifest(candidates@, i as int));
            }
            return Ok(candidates[i].path.clone());
        }
        i += 1;
    }
    let mut descriptions: Vec<String> = Vec::new();
    let mut k: usize = 0;
    while k < candidates.len()
        invariant
            k <= candidates@.len(),
            descriptions@.len() == k,
            views_of(descriptions@) =~= candidate_descriptions(candidates@).take(k as int),
        decreases candidates@.len() - k,
    {
        let ghost prev = descriptions@;
        descriptions.push(candidates[k].description.clone());
        proof {
            let pre = candidate_descriptions(candidates@);
            assert forall|j: int| 0 <= j < k + 1 implies views_of(descriptions@)[j] == pre.take(
                k + 1,
            )[j] by {
                assert(views_of(descriptions@)[j] == descriptions@[j]@);
                assert(pre.take(k + 1)[j] == candidates@[j].description@);
                if j < k {
                    assert(descriptions@[j] == prev[j]);
                    assert(views_of(prev)[j] == prev[j]@);
                    assert(views_of(prev)[j] == pre.take(k as int)[j]);
                    assert(pre.take(k as int)[j] == candidates@[j].description@);
                }
            }
            assert(views_of(descriptions@) =~= pre.take(k + 1));
        }
        k += 1;
    }
    proof {
        assert(candidate_descriptions(candidates@).take(candidates@.len() as int)
            =~= candidate_descriptions(candidates@));
    }
    let joined = join_strings(&descriptions, "\n- ");
    Err("docker-compose.yaml not found. Searched in:\n".to_owned().concat(joined.as_str()))
}

} // verus!
