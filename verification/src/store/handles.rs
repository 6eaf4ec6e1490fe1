//! The object library's types that travel through the engines. They are
//! opaque here: a value can be carried and handed back, nothing more.

use vstd::prelude::*;

verus! {

/// `git2::Repository`, carried as an opaque value.
#[verifier::external_type_specification]
#[verifier::external_body]
pub struct ExRepository(git2::Repository);

/// `git2::Oid`, carried as an opaque value.
#[verifier::external_type_specification]
#[verifier::external_body]
pub struct ExOid(git2::Oid);

/// `git2::Reference<'repo>`, carried as an opaque value.
#[verifier::external_type_specification]
#[verifier::external_body]
pub struct ExReference<'repo>(git2::Reference<'repo>);

/// `git2::Branch<'repo>`, carried as an opaque value.
#[verifier::external_type_specification]
#[verifier::external_body]
pub struct ExBranch<'repo>(git2::Branch<'repo>);

/// `git2::Commit<'repo>`, carried as an opaque value.
#[verifier::external_type_specification]
#[verifier::external_body]
pub struct ExCommit<'repo>(git2::Commit<'repo>);

/// `git2::Tree<'repo>`, carried as an opaque value.
#[verifier::external_type_specification]
#[verifier::external_body]
pub struct ExTree<'repo>(git2::Tree<'repo>);

/// `git2::Index`, carried as an opaque value.
#[verifier::external_type_specification]
#[verifier::external_body]
pub struct ExIndex(git2::Index);

/// `git2::Signature<'a>`, carried as an opaque value.
#[verifier::external_type_specification]
#[verifier::external_body]
pub struct ExSignature<'a>(git2::Signature<'a>);

/// `git2::Diff<'repo>`, carried as an opaque value.
#[verifier::external_type_specification]
#[verifier::external_body]
pub struct ExDiff<'repo>(git2::Diff<'repo>);

/// `git2::Patch<'buffers>`, carried as an opaque value.
#[verifier::external_type_specification]
#[verifier::external_body]
pub struct ExPatch<'buffers>(git2::Patch<'buffers>);

/// `git2::Delta`, carried as an opaque value.
#[verifier::external_type_specification]
#[verifier::external_body]
pub struct ExDelta(git2::Delta);

/// `git2::StatusEntry<'statuses>`, carried as an opaque value.
#[verifier::external_type_specification]
#[verifier::external_body]
pub struct ExStatusEntry<'statuses>(git2::StatusEntry<'statuses>);

/// `git2::BlameHunk<'blame>`, carried as an opaque value.
#[verifier::external_type_specification]
#[verifier::external_body]
pub struct ExBlameHunk<'blame>(git2::BlameHunk<'blame>);

/// `git2::DiffOptions`, carried as an opaque value.
#[verifier::external_type_specification]
#[verifier::external_body]
pub struct ExDiffOptions(git2::DiffOptions);

/// `git2::BranchType`, carried as an opaque value.
#[verifier::external_type_specification]
#[verifier::external_body]
pub struct ExBranchType(git2::BranchType);

/// `git2::build::CheckoutBuilder<'cb>`, carried as an opaque value.
#[verifier::external_type_specification]
#[verifier::external_body]
pub struct ExCheckoutBuilder<'cb>(git2::build::CheckoutBuilder<'cb>);

/// `git2::Remote<'repo>`, carried as an opaque value.
#[verifier::external_type_specification]
#[verifier::external_body]
pub struct ExRemote<'repo>(git2::Remote<'repo>);

/// `git2::Reflog`, carried as an opaque value.
#[verifier::external_type_specification]
#[verifier::external_body]
pub struct ExReflog(git2::Reflog);

/// `git2::IndexEntry`, carried as an opaque value.
#[verifier::external_type_specification]
#[verifier::external_body]
pub struct ExIndexEntry(git2::IndexEntry);

/// `git2::Object<'repo>`, carried as an opaque value.
#[verifier::external_type_specification]
#[verifier::external_body]
pub struct ExObject<'repo>(git2::Object<'repo>);

/// `git2::Revwalk<'repo>`, carried as an opaque value.
#[verifier::external_type_specification]
#[verifier::external_body]
pub struct ExRevwalk<'repo>(git2::Revwalk<'repo>);

/// `git2::TreeEntry<'tree>`, carried as an opaque value.
#[verifier::external_type_specification]
#[verifier::external_body]
pub struct ExTreeEntry<'tree>(git2::TreeEntry<'tree>);

/// `git2::ResetType`, carried as an opaque value.
#[verifier::external_type_specification]
#[verifier::external_body]
pub struct ExResetType(git2::ResetType);

} // verus!
