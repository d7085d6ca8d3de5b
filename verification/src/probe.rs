//! Symlink-aware existence probe.
//!
//! A plain existence check follows a trailing symlink, so it reports a
//! dangling symlink as absent. The probe here asks the filesystem about the
//! path entry itself and reports it present when the entry is a symlink,
//! dangling or not, or when an ordinary existence check succeeds as well.
//! Every failure of the underlying metadata queries collapses to `false`.
use vstd::prelude::*;

verus! {

#[verifier::external_type_specification]
#[verifier::external_body]
pub struct ExPathBuf(std::path::PathBuf);

/// Relies on Path::symlink_metadata: it queries the path entry itself,
/// without following a trailing symlink, and returns Ok exactly when that
/// query succeeds. The answer depends on the state of the filesystem, so
/// nothing relates it to the argument alone.
#[verifier::external_body]
fn entry_found(path: &std::path::PathBuf) -> bool {
    matches!(path.symlink_metadata(), Ok(_))
}

/// Relies on Path::is_symlink: true exactly when the path entry itself can
/// be queried and is a symbolic link. The answer depends on the state of
/// the filesystem, so nothing relates it to the argument alone.
#[verifier::external_body]
fn entry_is_symlink(path: &std::path::PathBuf) -> bool {
    path.is_symlink()
}

/// Relies on Path::exists: the ordinary existence check, which follows a
/// trailing symlink to its target. The answer depends on the state of the
/// filesystem, so nothing relates it to the argument alone.
#[verifier::external_body]
fn target_found(path: &std::path::PathBuf) -> bool {
    path.exists()
}

/// The probe's verdict from the three metadata answers: present when the
/// entry itself was found and is either a symlink or reaches a target that
/// an ordinary existence check also finds.
pub open spec fn probe_verdict(found: bool, is_link: bool, reachable: bool) -> bool {
    found && (is_link || reachable)
}

/// Combines the three metadata answers about a path into the probe's
/// verdict; `exists_symlink` decides by this function alone.
pub fn exists_verdict(found: bool, is_link: bool, reachable: bool) -> (r: bool)
    ensures
        r == probe_verdict(found, is_link, reachable),
{
    found && (is_link || reachable)
}

/// Symlink-aware existence check for filesystem paths.
pub trait SymlinkExists {
    /// Reports whether something occupies this exact path, without
    /// following a trailing symlink: true for an existing file or
    /// directory, and also for a dangling symlink.
    fn exists_symlink(&self) -> bool;
}

impl SymlinkExists for std::path::PathBuf {
    /// Queries the filesystem and returns `exists_verdict` of the answers.
    /// The answers depend on the state of the filesystem, so no more is
    /// promised of the result; the decision logic itself is `exists_verdict`.
    fn exists_symlink(&self) -> bool {
        let found = entry_found(self);
        let is_link = entry_is_symlink(self);
        let reachable = target_found(self);
        exists_verdict(found, is_link, reachable)
    }
}

} // verus!
