//! Directory builders configured with a permission mode.

use cap_std::fs::DirBuilder;
use cap_std::fs::DirBuilderExt;
use vstd::prelude::*;

verus! {

/// `cap_std::fs::DirBuilder`, carried through verified code as an opaque value.
#[verifier::external_type_specification]
#[verifier::external_body]
pub struct ExDirBuilder(DirBuilder);

/// The permission mode that a builder gives to the directories it creates.
pub uninterp spec fn builder_mode(builder: DirBuilder) -> u32;

/// Whether a builder also creates the missing parents of a directory.
pub uninterp spec fn builder_recursive(builder: DirBuilder) -> bool;

/// The mode of a builder that was never configured.
pub const DEFAULT_MODE: u32 = 0o777;

/// `DirBuilder::new`: a fresh builder is not recursive and has the default
/// mode, `0o777`.
#[verifier::external_body]
fn new_builder() -> (builder: DirBuilder)
    ensures
        builder_mode(builder) == DEFAULT_MODE,
        !builder_recursive(builder),
{
    DirBuilder::new()
}

/// `DirBuilderExt::mode` on a `DirBuilder`: stores the mode in the builder
/// and leaves its recursive flag as it was.
#[verifier::external_body]
fn set_mode(builder: &mut DirBuilder, mode: u32)
    ensures
        builder_mode(*final(builder)) == mode,
        builder_recursive(*final(builder)) == builder_recursive(*old(builder)),
{
    builder.mode(mode);
}

/// A builder that creates single directories with the permission mode `m`.
pub fn dirbuilder_from_mode(m: u32) -> (r: DirBuilder)
    ensures
        builder_mode(r) == m,
        !builder_recursive(r),
{
    let mut r = new_builder();
    set_mode(&mut r, m);
    r
}

} // verus!
