//! The path guard: a target folder is accepted only when it lies under no
//! protected location and ends with the application folder followed by the
//! item folder.
//!
//! The guard compares text. It resolves neither `..` segments nor symbolic
//! links, so callers hand it a path that is already joined and resolved.

use crate::error::ErrorKind;
use crate::text::{append_decimal, chars_of, decimal, has_prefix, has_suffix};
use vstd::prelude::*;

verus! {

/// The separator between two segments of a path.
pub open spec fn separator() -> Seq<char> {
    seq!['/']
}

/// The protected locations, in the order in which they are tried.
pub open spec fn protected_prefixes() -> Seq<Seq<char>> {
    seq![
        "/bin"@,
        "/boot"@,
        "/dev"@,
        "/etc"@,
        "/lib"@,
        "/proc"@,
        "/sbin"@,
        "/sys"@,
        "/usr"@,
        "/System"@,
        "/Library"@,
        "/Applications"@,
        "C:\\Windows"@,
        "C:\\Program Files"@,
        "C:\\ProgramData"@,
    ]
}

/// The index of the first protected location at or after `from` that is a
/// prefix of `path`.
pub open spec fn first_protected_from(path: Seq<char>, from: nat) -> Option<nat>
    decreases protected_prefixes().len() - from,
{
    if from >= protected_prefixes().len() {
        None
    } else if protected_prefixes()[from as int].is_prefix_of(path) {
        Some(from)
    } else {
        first_protected_from(path, from + 1)
    }
}

/// The first protected location that is a prefix of `path`, if there is one.
pub open spec fn matched_prefix(path: Seq<char>) -> Option<Seq<char>> {
    match first_protected_from(path, 0) {
        Some(i) => Some(protected_prefixes()[i as int]),
        None => None,
    }
}

/// A path is forbidden when some protected location is a prefix of its text.
pub open spec fn is_forbidden(path: Seq<char>) -> bool {
    exists|i: int|
        0 <= i < protected_prefixes().len() && (#[trigger] protected_prefixes()[i]).is_prefix_of(
            path,
        )
}

/// What a target ends with: a separator, the application's number in
/// decimal, a separator, the item's name.
pub open spec fn expected_suffix(app_id: u32, item_id: Seq<char>) -> Seq<char> {
    separator() + decimal(app_id as nat) + separator() + item_id
}

/// The target folder of an item below `base`.
pub open spec fn target(base: Seq<char>, app_id: u32, item_id: Seq<char>) -> Seq<char> {
    base + expected_suffix(app_id, item_id)
}

/// The path ends with the application folder and the item folder, and the
/// application folder is a whole segment.
pub open spec fn has_structure(path: Seq<char>, app_id: u32, item_id: Seq<char>) -> bool {
    expected_suffix(app_id, item_id).is_suffix_of(path)
}

/// Why a path was refused, over plain text.
pub enum PathFault {
    /// A protected location, the first in order, is a prefix of the path.
    Forbidden(Seq<char>),
    /// The path, which does not end as a target must.
    StructureMismatch(Seq<char>),
}

/// Why a path was refused.
#[derive(Debug)]
pub enum PathError {
    /// The protected location that is a prefix of the path.
    Forbidden { prefix: String },
    /// The path, which does not end as a target must.
    StructureMismatch { path: String },
}

impl View for PathError {
    type V = PathFault;

    open spec fn view(&self) -> PathFault {
        match self {
            PathError::Forbidden { prefix } => PathFault::Forbidden(prefix@),
            PathError::StructureMismatch { path } => PathFault::StructureMismatch(path@),
        }
    }
}

/// The message that goes with a refusal.
pub open spec fn fault_message(fault: PathFault) -> Seq<char> {
    match fault {
        PathFault::Forbidden(prefix) => "Access to protected path '"@ + prefix + "' is forbidden"@,
        PathFault::StructureMismatch(path) => "Path does not match expected folder structure: "@
            + path,
    }
}

/// The kind of a refusal.
pub open spec fn fault_kind(fault: PathFault) -> ErrorKind {
    match fault {
        PathFault::Forbidden(_) => ErrorKind::ForbiddenPath,
        PathFault::StructureMismatch(_) => ErrorKind::StructureMismatch,
    }
}

impl PathError {
    /// The message shown to the user.
    pub fn message(&self) -> (text: String)
        ensures
            text@ == fault_message(self@),
    {
        match self {
            PathError::Forbidden { prefix } => {
                let mut text = "Access to protected path '".to_owned();
                text.append(prefix.as_str());
                text.append("' is forbidden");
                text
            },
            PathError::StructureMismatch { path } => {
                let mut text = "Path does not match expected folder structure: ".to_owned();
                text.append(path.as_str());
                text
            },
        }
    }

    /// The kind of this error.
    pub fn kind(&self) -> (kind: ErrorKind)
        ensures
            kind == fault_kind(self@),
    {
        match self {
            PathError::Forbidden { .. } => ErrorKind::ForbiddenPath,
            PathError::StructureMismatch { .. } => ErrorKind::StructureMismatch,
        }
    }
}

/// The verdict on a path: a protected prefix refuses it whatever its
/// structure; otherwise it is accepted exactly when it ends as a target must.
pub open spec fn validation(path: Seq<char>, app_id: u32, item_id: Seq<char>) -> Result<
    (),
    PathFault,
> {
    match matched_prefix(path) {
        Some(prefix) => Err(PathFault::Forbidden(prefix)),
        None => if has_structure(path, app_id, item_id) {
            Ok(())
        } else {
            Err(PathFault::StructureMismatch(path))
        },
    }
}

/// The protected locations, in the order in which they are tried.
pub fn protected_paths() -> (paths: Vec<&'static str>)
    ensures
        paths@.len() == protected_prefixes().len(),
        forall|i: int| 0 <= i < paths@.len() ==> (#[trigger] paths@[i])@ == protected_prefixes()[i],
{
    vec![
        "/bin",
        "/boot",
        "/dev",
        "/etc",
        "/lib",
        "/proc",
        "/sbin",
        "/sys",
        "/usr",
        "/System",
        "/Library",
        "/Applications",
        "C:\\Windows",
        "C:\\Program Files",
        "C:\\ProgramData",
    ]
}

/// The text that a target for `app_id` and `item_id` ends with.
pub fn suffix_text(app_id: u32, item_id: &str) -> (text: String)
    ensures
        text@ == expected_suffix(app_id, item_id@),
{
    proof {
        reveal_strlit("/");
    }
    let mut text = "/".to_owned();
    assert(text@ =~= separator());
    append_decimal(&mut text, app_id);
    text.append("/");
    text.append(item_id);
    assert(text@ =~= expected_suffix(app_id, item_id@));
    text
}

/// The target folder of item `item_id` of application `app_id` below `base`.
pub fn target_path(base: &str, app_id: u32, item_id: &str) -> (path: String)
    ensures
        path@ == target(base@, app_id, item_id@),
{
    let mut path = base.to_owned();
    let suffix = suffix_text(app_id, item_id);
    path.append(suffix.as_str());
    path
}

/// Checks a target folder before anything is written to it.
///
/// The path is refused as forbidden when a protected location is a prefix of
/// its text, whatever else holds of it. Otherwise it is accepted exactly when
/// it ends with a separator, the decimal application number, a separator and
/// the item's name.
pub fn validate_mod_path(path: &str, app_id: u32, item_id: &str) -> (r: Result<(), PathError>)
    ensures
        match r {
            Ok(()) => validation(path@, app_id, item_id@) is Ok,
            Err(e) => validation(path@, app_id, item_id@) == Err::<(), PathFault>(e@),
        },
{
    let chars = chars_of(path);
    let protected = protected_paths();
    let mut i: usize = 0;
    while i < protected.len()
        invariant
            i <= protected.len(),
            chars@ == path@,
            protected@.len() == protected_prefixes().len(),
            forall|k: int|
                0 <= k < protected@.len() ==> (#[trigger] protected@[k])@ == protected_prefixes()[k],
            first_protected_from(path@, 0) == first_protected_from(path@, i as nat),
        decreases protected.len() - i,
    {
        let prefix = chars_of(protected[i]);
        if has_prefix(&chars, &prefix) {
            return Err(PathError::Forbidden { prefix: protected[i].to_owned() });
        }
        i += 1;
    }
    let suffix = suffix_text(app_id, item_id);
    let suffix_chars = chars_of(suffix.as_str());
    if has_suffix(&chars, &suffix_chars) {
        Ok(())
    } else {
        Err(PathError::StructureMismatch { path: path.to_owned() })
    }
}

/// Where an item is installed: the base folder, the application, the item
/// and the folder that results. A value of this type has passed the guard.
pub struct InstallationTarget {
    base_path: String,
    app_id: u32,
    item_id: String,
    resolved_path: String,
}

impl InstallationTarget {
    /// The resolved folder is the base folder followed by the application
    /// folder and the item folder, and no protected location is a prefix of
    /// it.
    #[verifier::type_invariant]
    pub closed spec fn wf(&self) -> bool {
        &&& self.resolved_path@ == target(self.base_path@, self.app_id, self.item_id@)
        &&& validation(self.resolved_path@, self.app_id, self.item_id@) is Ok
    }

    /// The base folder.
    pub closed spec fn base(&self) -> Seq<char> {
        self.base_path@
    }

    /// The application.
    pub closed spec fn app(&self) -> u32 {
        self.app_id
    }

    /// The item.
    pub closed spec fn item(&self) -> Seq<char> {
        self.item_id@
    }

    /// The resolved folder.
    pub closed spec fn resolved(&self) -> Seq<char> {
        self.resolved_path@
    }

    /// The target of `item_id` of application `app_id` below `base`, if the
    /// guard accepts it. A composed target always has the right structure, so
    /// the only refusal is that of a protected location.
    pub fn resolve(base: &str, app_id: u32, item_id: &str) -> (r: Result<Self, PathError>)
        ensures
            match r {
                Ok(t) => {
                    &&& t.base() == base@
                    &&& t.app() == app_id
                    &&& t.item() == item_id@
                    &&& t.resolved() == target(base@, app_id, item_id@)
                    &&& validation(t.resolved(), app_id, item_id@) is Ok
                },
                Err(e) => {
                    &&& validation(target(base@, app_id, item_id@), app_id, item_id@) == Err::<
                        (),
                        PathFault,
                    >(e@)
                    &&& e@ is Forbidden
                },
            },
    {
        let resolved_path = target_path(base, app_id, item_id);
        proof {
            lemma_target_below_base(base@, app_id, item_id@);
            lemma_matched_prefix_iff_forbidden(resolved_path@);
        }
        match validate_mod_path(resolved_path.as_str(), app_id, item_id) {
            Ok(()) => Ok(
                InstallationTarget {
                    base_path: base.to_owned(),
                    app_id,
                    item_id: item_id.to_owned(),
                    resolved_path,
                },
            ),
            Err(e) => Err(e),
        }
    }

    /// The base folder.
    pub fn base_path(&self) -> (path: &str)
        ensures
            path@ == self.base(),
    {
        self.base_path.as_str()
    }

    /// The application.
    pub fn app_id(&self) -> (id: u32)
        ensures
            id == self.app(),
    {
        self.app_id
    }

    /// The item.
    pub fn item_id(&self) -> (id: &str)
        ensures
            id@ == self.item(),
    {
        self.item_id.as_str()
    }

    /// The resolved folder: it lies strictly below the base folder, no
    /// protected location is a prefix of it, and the guard accepts it.
    pub fn resolved_path(&self) -> (path: &str)
        ensures
            path@ == self.resolved(),
            path@ == target(self.base(), self.app(), self.item()),
            validation(path@, self.app(), self.item()) is Ok,
            !is_forbidden(path@),
            self.base().is_prefix_of(path@) && self.base().len() < path@.len(),
    {
        proof {
            use_type_invariant(self);
            lemma_target_below_base(self.base_path@, self.app_id, self.item_id@);
        }
        self.resolved_path.as_str()
    }
}

/// What `first_protected_from` finds is the least index at or after `from`
/// whose protected location is a prefix of the path.
pub proof fn lemma_first_protected_is_least(path: Seq<char>, from: nat)
    ensures
        match first_protected_from(path, from) {
            Some(i) => {
                &&& from <= i < protected_prefixes().len()
                &&& protected_prefixes()[i as int].is_prefix_of(path)
                &&& forall|j: int| from <= j < i ==> !(#[trigger] protected_prefixes()[j]).is_prefix_of(path)
            },
            None => forall|j: int|
                from <= j < protected_prefixes().len() ==> !(#[trigger] protected_prefixes()[j]).is_prefix_of(path),
        },
    decreases protected_prefixes().len() - from,
{
    if from < protected_prefixes().len() && !protected_prefixes()[from as int].is_prefix_of(path) {
        lemma_first_protected_is_least(path, from + 1);
    }
}

/// A protected location is found exactly for the forbidden paths, and the one
/// found is a prefix of the path.
pub proof fn lemma_matched_prefix_iff_forbidden(path: Seq<char>)
    ensures
        matched_prefix(path) is Some <==> is_forbidden(path),
        matched_prefix(path) matches Some(prefix) ==> prefix.is_prefix_of(path),
{
    lemma_first_protected_is_least(path, 0);
}

/// A path has the structure of a target exactly when it is the target of
/// some base folder.
pub proof fn lemma_structure_is_exact_form(path: Seq<char>, app_id: u32, item_id: Seq<char>)
    ensures
        has_structure(path, app_id, item_id) <==> exists|base: Seq<char>|
            path == #[trigger] target(base, app_id, item_id),
{
    let suffix = expected_suffix(app_id, item_id);
    if has_structure(path, app_id, item_id) {
        let base = path.subrange(0, path.len() - suffix.len());
        assert(path =~= target(base, app_id, item_id));
    }
    if exists|base: Seq<char>| path == #[trigger] target(base, app_id, item_id) {
        let base = choose|base: Seq<char>| path == #[trigger] target(base, app_id, item_id);
        assert(path.subrange(path.len() - suffix.len(), path.len() as int) =~= suffix);
    }
}

/// Sandbox containment: a path is accepted exactly when no protected
/// location is a prefix of it and it is, letter for letter, some base folder
/// followed by the application folder and the item folder. A protected prefix
/// refuses the path as forbidden whether or not its structure is right.
pub proof fn lemma_sandbox_containment(path: Seq<char>, app_id: u32, item_id: Seq<char>)
    ensures
        validation(path, app_id, item_id) is Ok <==> !is_forbidden(path) && exists|base: Seq<char>|
            path == #[trigger] target(base, app_id, item_id),
        is_forbidden(path) <==> validation(path, app_id, item_id) matches Err(
            PathFault::Forbidden(_),
        ),
        validation(path, app_id, item_id) matches Err(PathFault::Forbidden(prefix))
            ==> prefix.is_prefix_of(path),
{
    lemma_matched_prefix_iff_forbidden(path);
    lemma_structure_is_exact_form(path, app_id, item_id);
}

/// The target of a base folder lies strictly below it, has the structure that
/// the guard asks for, and is forbidden whenever the base folder is: it is
/// accepted exactly when no protected location is a prefix of it.
pub proof fn lemma_target_below_base(base: Seq<char>, app_id: u32, item_id: Seq<char>)
    ensures
        base.is_prefix_of(target(base, app_id, item_id)),
        base.len() < target(base, app_id, item_id).len(),
        has_structure(target(base, app_id, item_id), app_id, item_id),
        is_forbidden(base) ==> is_forbidden(target(base, app_id, item_id)),
        validation(target(base, app_id, item_id), app_id, item_id) is Ok <==> !is_forbidden(
            target(base, app_id, item_id),
        ),
{
    let whole = target(base, app_id, item_id);
    assert(whole.subrange(0, base.len() as int) =~= base);
    lemma_structure_is_exact_form(whole, app_id, item_id);
    lemma_matched_prefix_iff_forbidden(whole);
    if is_forbidden(base) {
        let i = choose|i: int|
            0 <= i < protected_prefixes().len() && (#[trigger] protected_prefixes()[i]).is_prefix_of(
                base,
            );
        let p = protected_prefixes()[i];
        assert(whole.subrange(0, p.len() as int) =~= base.subrange(0, p.len() as int));
        assert(protected_prefixes()[i].is_prefix_of(whole));
    }
}

} // verus!
