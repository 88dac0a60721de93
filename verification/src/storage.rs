//! Where generated meshes are kept: one directory for each generation, named by
//! an identifier that no other generation shares.

use crate::text::join3;
use vstd::prelude::*;

verus! {

/// The asset paths of the two meshes of one generation.
#[derive(Debug)]
pub struct GeneratedModelPaths {
    pub preview_path: String,
    pub refined_path: String,
}

/// The two paths as plain text.
pub struct GeneratedModelPathsView {
    pub preview_path: Seq<char>,
    pub refined_path: Seq<char>,
}

impl View for GeneratedModelPaths {
    type V = GeneratedModelPathsView;

    open spec fn view(&self) -> GeneratedModelPathsView {
        GeneratedModelPathsView {
            preview_path: self.preview_path@,
            refined_path: self.refined_path@,
        }
    }
}

/// Whether `c` may stand in a generation identifier: a lower-case hexadecimal
/// digit or a hyphen.
pub open spec fn is_id_char(c: char) -> bool {
    ('0' <= c && c <= '9') || ('a' <= c && c <= 'f') || c == '-'
}

/// The shape of a generation identifier: 36 characters, hexadecimal digits and hyphens.
pub open spec fn is_generation_id(id: Seq<char>) -> bool {
    id.len() == 36 && forall|i: int| 0 <= i < id.len() ==> is_id_char(#[trigger] id[i])
}

/// The asset paths of the generation `id`.
pub open spec fn model_paths_spec(id: Seq<char>) -> GeneratedModelPathsView {
    GeneratedModelPathsView {
        preview_path: "models/generated/"@ + id + "/preview.glb"@,
        refined_path: "models/generated/"@ + id + "/refined.glb"@,
    }
}

/// `uuid::Uuid::new_v4`, rendered by `to_string`. The identifier is random, so
/// nothing is said of which one comes back, only of its shape: the hyphenated
/// lower-case form, 36 characters long.
#[verifier::external_body]
pub(crate) fn random_id() -> (r: String)
    ensures
        is_generation_id(r@),
{
    uuid::Uuid::new_v4().to_string()
}

/// A new identifier for one generation.
pub fn fresh_generation_id() -> (r: String)
    ensures
        is_generation_id(r@),
{
    random_id()
}

/// The asset paths under which the meshes of generation `id` are loaded.
pub fn model_paths(id: &str) -> (r: GeneratedModelPaths)
    ensures
        r@ == model_paths_spec(id@),
{
    GeneratedModelPaths {
        preview_path: join3("models/generated/", id, "/preview.glb"),
        refined_path: join3("models/generated/", id, "/refined.glb"),
    }
}

/// The directory, from the working directory, that holds the meshes of generation `id`.
pub fn model_directory(id: &str) -> (r: String)
    ensures
        r@ == "assets/"@ + "models/generated/"@ + id@,
{
    join3("assets/", "models/generated/", id)
}

/// The asset path at which the ground texture is found once written.
pub fn ground_texture_path() -> (r: String)
    ensures
        r@ == "textures/generated/ground.png"@,
{
    "textures/generated/ground.png".to_owned()
}

/// The asset path at which the sky cubemap is found once written.
pub fn sky_texture_path() -> (r: String)
    ensures
        r@ == "cubemaps/generated/sky.ktx2"@,
{
    "cubemaps/generated/sky.ktx2".to_owned()
}

} // verus!
