//! Props generated while the level is played: the jobs that make them, and the
//! one-time settling of a spliced prop on the ground.

use crate::storage::GeneratedModelPaths;
use crate::storage::{is_generation_id, model_paths_spec};
use crate::text::{join2, lemma_first_sep_at, nth_segment, segment};
use vstd::prelude::*;

verus! {

/// The marker of a spliced prop. `H` is the engine's measure of height.
#[derive(Debug)]
pub struct GeneratedPropRoot<H> {
    /// The height at which the prop's lowest point is to rest.
    pub ground_height: H,
    /// Whether the prop was moved to rest there.
    pub adjusted: bool,
}

/// What a height scan asks of the engine.
#[derive(Debug)]
pub enum HeightAdjustment<H> {
    /// Leave the prop where it is.
    Keep,
    /// Move the prop up or down by the difference between `target` and `lowest`.
    Translate { lowest: H, target: H },
}

impl<H: Copy> GeneratedPropRoot<H> {
    /// The marker of a prop that was just spliced in.
    pub fn new(ground_height: H) -> (r: Self)
        ensures
            r.ground_height == ground_height,
            !r.adjusted,
    {
        GeneratedPropRoot { ground_height, adjusted: false }
    }

    /// Whether the prop's geometry is still to be scanned.
    pub fn needs_scan(&self) -> (r: bool)
        ensures
            r == !self.adjusted,
    {
        !self.adjusted
    }

    /// The marker after a scan that found `lowest`.
    pub open spec fn settled(self, lowest: Option<H>) -> Self {
        GeneratedPropRoot { adjusted: self.adjusted || lowest is Some, ..self }
    }

    /// What a scan that found `lowest` asks of the engine.
    pub open spec fn adjustment(self, lowest: Option<H>) -> HeightAdjustment<H> {
        match lowest {
            Some(lowest) if !self.adjusted => HeightAdjustment::Translate {
                lowest,
                target: self.ground_height,
            },
            _ => HeightAdjustment::Keep,
        }
    }

    /// Takes in the result of a scan of the prop's geometry: `lowest` is the
    /// lowest point found, or nothing where no geometry was there yet. A prop that
    /// was not moved before and has geometry is moved once, and marked.
    pub fn settle(&mut self, lowest: Option<H>) -> (r: HeightAdjustment<H>)
        ensures
            r == old(self).adjustment(lowest),
            *final(self) == old(self).settled(lowest),
    {
        match lowest {
            Some(lowest) => {
                if self.adjusted {
                    HeightAdjustment::Keep
                } else {
                    self.adjusted = true;
                    HeightAdjustment::Translate { lowest, target: self.ground_height }
                }
            },
            None => HeightAdjustment::Keep,
        }
    }
}

/// A prop that was moved to the ground is left alone by every later scan: the
/// scan asks for nothing, and the marker stays as it is.
pub proof fn lemma_settled_prop_stays<H: Copy>(root: GeneratedPropRoot<H>, found: Option<H>)
    requires
        root.adjusted,
    ensures
        root.adjustment(found) == HeightAdjustment::<H>::Keep,
        root.settled(found) == root,
{
}

/// A scan that moves a prop marks it, so that the scan after it moves nothing:
/// no prop is moved twice.
pub proof fn lemma_prop_moves_once<H: Copy>(root: GeneratedPropRoot<H>, first: Option<H>, second: Option<H>)
    ensures
        root.adjustment(first) is Translate ==> root.settled(first).adjusted,
        root.adjustment(first) is Translate ==> root.settled(first).adjustment(second)
            == HeightAdjustment::<H>::Keep,
        root.settled(first).settled(first) == root.settled(first),
        root.settled(first).ground_height == root.ground_height,
{
}

/// One prop generation under way. `P` is where the engine is to put the prop.
#[derive(Debug)]
pub struct PropJob<P> {
    /// The number under which the job's result is reported.
    pub id: u64,
    pub prompt: String,
    /// The engine's name for the effect shown where the prop will appear.
    pub placeholder: u64,
    /// Where the prop is to appear, as it was worked out when the prompt was submitted.
    pub placement: P,
}

/// The prop generations under way. Each is on its own: none waits for another.
#[derive(Debug)]
pub struct PropBoard<P> {
    /// The number of jobs submitted so far.
    pub issued: u64,
    pub jobs: Vec<PropJob<P>>,
}

/// What the engine is to do with a job's result.
#[derive(Debug)]
pub enum PropResolution<P> {
    /// Remove the job's placeholder and put the prop in its place, loaded from `scene_path`.
    Splice { job: PropJob<P>, scene_path: String, paths: GeneratedModelPaths },
    /// Remove the job's placeholder; nothing is put into the scene.
    Discard { job: PropJob<P>, reason: String },
    /// The job is not under way: nothing is to be done.
    Stale,
}

/// The asset path of the scene in the mesh file at `refined_path`.
pub open spec fn scene_path_spec(refined_path: Seq<char>) -> Seq<char> {
    refined_path + "#Scene0"@
}

/// The asset path of the scene in the refined mesh of `paths`.
pub fn scene_path(paths: &GeneratedModelPaths) -> (r: String)
    ensures
        r@ == scene_path_spec(paths.refined_path@),
{
    join2(paths.refined_path.as_str(), "#Scene0")
}

impl<P> PropBoard<P> {
    /// Whether every job has a number of its own, below the count of jobs submitted.
    pub open spec fn wf(&self) -> bool {
        &&& forall|i: int| 0 <= i < self.jobs@.len() ==> (#[trigger] self.jobs@[i]).id < self.issued
        &&& forall|i: int, j: int|
            0 <= i < self.jobs@.len() && 0 <= j < self.jobs@.len() && i != j ==> (
            #[trigger] self.jobs@[i]).id != (#[trigger] self.jobs@[j]).id
    }

    /// Whether the job numbered `id` is under way.
    pub open spec fn is_pending(&self, id: u64) -> bool {
        exists|i: int| 0 <= i < self.jobs@.len() && (#[trigger] self.jobs@[i]).id == id
    }

    /// A board without jobs.
    pub fn new() -> (r: Self)
        ensures
            r.wf(),
            r.issued == 0,
            r.jobs@.len() == 0,
    {
        PropBoard { issued: 0, jobs: Vec::new() }
    }

    /// Whether another job can be submitted: the count of jobs has room.
    pub fn can_submit(&self) -> (r: bool)
        ensures
            r == (self.issued < u64::MAX),
    {
        self.issued < u64::MAX
    }

    /// Takes a job in, beside those under way, and returns its number.
    pub fn submit(&mut self, prompt: String, placeholder: u64, placement: P) -> (id: u64)
        requires
            old(self).wf(),
            old(self).issued < u64::MAX,
        ensures
            final(self).wf(),
            id == old(self).issued,
            final(self).issued == old(self).issued + 1,
            final(self).jobs@ == old(self).jobs@.push(
                PropJob { id, prompt, placeholder, placement },
            ),
    {
        let id = self.issued;
        self.issued = self.issued + 1;
        self.jobs.push(PropJob { id, prompt, placeholder, placement });
        id
    }

    /// The place of the job numbered `id` among those under way.
    pub fn position(&self, id: u64) -> (r: Option<usize>)
        ensures
            match r {
                Some(i) => i < self.jobs@.len() && self.jobs@[i as int].id == id,
                None => !self.is_pending(id),
            },
    {
        let mut i: usize = 0;
        while i < self.jobs.len()
            invariant
                i <= self.jobs@.len(),
                forall|j: int| 0 <= j < i ==> (#[trigger] self.jobs@[j]).id != id,
            decreases self.jobs@.len() - i,
        {
            if self.jobs[i].id == id {
                return Some(i);
            }
            i += 1;
        }
        None
    }

    /// Takes the result of the job numbered `id`. A job under way is taken off
    /// the board, whatever its result; the others stay as they are. Its prop is
    /// spliced in where it succeeded, and only its placeholder removed where it
    /// failed. A number that names no job under way changes nothing.
    pub fn resolve(&mut self, id: u64, result: Result<GeneratedModelPaths, String>) -> (r:
        PropResolution<P>)
        requires
            old(self).wf(),
        ensures
            final(self).wf(),
            final(self).issued == old(self).issued,
            !final(self).is_pending(id),
            !old(self).is_pending(id) ==> r is Stale && final(self).jobs@ == old(self).jobs@,
            old(self).is_pending(id) ==> exists|i: int|
                {
                    &&& 0 <= i < old(self).jobs@.len()
                    &&& (#[trigger] old(self).jobs@[i]).id == id
                    &&& final(self).jobs@ == old(self).jobs@.remove(i)
                    &&& match result {
                        Ok(paths) => r == (PropResolution::Splice {
                            job: old(self).jobs@[i],
                            scene_path: r->scene_path,
                            paths,
                        }) && r->scene_path@ == scene_path_spec(paths.refined_path@),
                        Err(reason) => r == (PropResolution::Discard {
                            job: old(self).jobs@[i],
                            reason,
                        }),
                    }
                },
    {
        match self.position(id) {
            None => PropResolution::Stale,
            Some(i) => {
                let ghost before = self.jobs@;
                let job = self.jobs.remove(i);
                proof {
                    assert(self.jobs@ == before.remove(i as int));
                    assert forall|k: int| 0 <= k < self.jobs@.len() implies (
                    #[trigger] self.jobs@[k]).id != id by {
                        if k < i {
                            assert(self.jobs@[k] == before[k]);
                        } else {
                            assert(self.jobs@[k] == before[k + 1]);
                        }
                    }
                    assert forall|a: int, b: int|
                        0 <= a < self.jobs@.len() && 0 <= b < self.jobs@.len() && a != b implies (
                    #[trigger] self.jobs@[a]).id != (#[trigger] self.jobs@[b]).id by {
                        let a0 = if a < i { a } else { a + 1 };
                        let b0 = if b < i { b } else { b + 1 };
                        assert(self.jobs@[a] == before[a0]);
                        assert(self.jobs@[b] == before[b0]);
                    }
                    assert forall|k: int| 0 <= k < self.jobs@.len() implies (
                    #[trigger] self.jobs@[k]).id < self.issued by {
                        let k0 = if k < i { k } else { k + 1 };
                        assert(self.jobs@[k] == before[k0]);
                    }
                    assert(before[i as int].id == id);
                }
                match result {
                    Ok(paths) => {
                        let scene_path = scene_path(&paths);
                        PropResolution::Splice { job, scene_path, paths }
                    },
                    Err(reason) => PropResolution::Discard { job, reason },
                }
            },
        }
    }
}

/// The name of the directory that holds the mesh at `refined_path`: the third
/// part of the path, or `generated` where the path has fewer parts.
pub open spec fn generation_folder_spec(refined_path: Seq<char>) -> Seq<char> {
    match nth_segment(refined_path, '/', 2) {
        Some(folder) => folder,
        None => "generated"@,
    }
}

/// The name under which the prop of `paths` stands in the scene.
pub fn prop_name(paths: &GeneratedModelPaths) -> (r: String)
    ensures
        r@ == "Generated Prop "@ + generation_folder_spec(paths.refined_path@),
{
    match segment(paths.refined_path.as_str(), '/', 2) {
        Some(folder) => join2("Generated Prop ", folder.as_str()),
        None => join2("Generated Prop ", "generated"),
    }
}

/// The directory named in the paths of a generation is the generation's
/// identifier, as long as the identifier holds no `/`.
pub proof fn lemma_folder_is_generation_id(id: Seq<char>)
    requires
        forall|i: int| 0 <= i < id.len() ==> id[i] != '/',
    ensures
        generation_folder_spec(model_paths_spec(id).refined_path) == id,
{
    reveal_strlit("models/generated/");
    reveal_strlit("/refined.glb");
    let lead = "models/generated/"@;
    let tail = "/refined.glb"@;
    let path = lead + id + tail;
    assert(model_paths_spec(id).refined_path == path);
    lemma_first_sep_at(path, '/', 6);
    let second = path.skip(7);
    lemma_first_sep_at(second, '/', 9);
    let third = second.skip(10);
    assert(third =~= id + tail);
    lemma_first_sep_at(third, '/', id.len() as int);
    assert(third.take(id.len() as int) =~= id);
    reveal_with_fuel(nth_segment, 3);
}

/// The paths of a generation under an identifier of the usual shape name that
/// identifier as their directory.
pub proof fn lemma_folder_of_fresh_id(id: Seq<char>)
    requires
        is_generation_id(id),
    ensures
        generation_folder_spec(model_paths_spec(id).refined_path) == id,
{
    assert forall|i: int| 0 <= i < id.len() implies id[i] != '/' by {
        assert(crate::storage::is_id_char(id[i]));
    }
    lemma_folder_is_generation_id(id);
}

} // verus!
