//! The served pack root: HTTP for the sandboxed browser, local paths for arduino-cli (libraries
//! and firmware).

use vstd::prelude::*;

use crate::error::{Error, ErrorView};
use crate::outside::simplified;
use crate::text::{cat, cat3, cat4, cat5};

verus! {

/// What lies at a path.
#[derive(Debug, PartialEq, Eq, Structural, Clone, Copy)]
pub enum PathKind {
    Dir,
    File,
    Other,
}

/// A path with every link, `.` and `..` resolved, as the file system gave it. `P` is the path
/// itself, which need not be text.
#[derive(Debug)]
pub struct CanonicalPath<P> {
    pub path: P,
    /// The path as text, lossily decoded where it is none.
    pub display: String,
    /// Whether the path is text, so that `display` is all of it.
    pub is_text: bool,
    /// Its components as the platform's bytes, from the file system's root down.
    pub components: Vec<Vec<u8>>,
    pub kind: PathKind,
}

/// The directory that packs are served from. There is a single version: contents are pinned to
/// the helper's install, so no version is tracked per pack.
#[derive(Debug)]
pub struct ResourceRoot<P> {
    path: P,
    components: Vec<Vec<u8>>,
}

/// A path that a reference resolved to.
#[derive(Debug)]
pub enum ResolvedPath<P> {
    /// A path that is text.
    Text(String),
    /// A path that is none, as it is, and lossily decoded.
    Raw { path: P, display: String },
}

impl<P> ResolvedPath<P> {
    /// The path as arduino-cli is told it, lossily decoded where it is no text.
    pub fn into_text(self) -> (text: String)
        ensures
            text == (match self {
                ResolvedPath::Text(text) => text,
                ResolvedPath::Raw { display, .. } => display,
            }),
    {
        match self {
            ResolvedPath::Text(text) => text,
            ResolvedPath::Raw { display, .. } => display,
        }
    }
}

/// A [`ResourceRoot`] with its components as sequences.
pub struct RootView<P> {
    pub path: P,
    pub components: Seq<Seq<u8>>,
}

/// The bytes of a path's components.
pub open spec fn component_bytes(components: Seq<Vec<u8>>) -> Seq<Seq<u8>> {
    components.map_values(|c: Vec<u8>| c@)
}

impl<P> View for ResourceRoot<P> {
    type V = RootView<P>;

    closed spec fn view(&self) -> RootView<P> {
        RootView { path: self.path, components: component_bytes(self.components@) }
    }
}

impl<P> RootView<P> {
    /// Whether `path` is the root or lies below it.
    pub open spec fn encloses(self, path: CanonicalPath<P>) -> bool {
        self.components.is_prefix_of(component_bytes(path.components@))
    }
}

/// Whether `resolved` is a form of the text `path` that arduino-cli can read: the same, or without
/// the verbatim prefix that canonical paths have on Windows.
pub open spec fn readable_form(path: Seq<char>, resolved: Seq<char>) -> bool {
    resolved == path || ("\\\\?\\"@.is_prefix_of(path) && resolved == path.skip(4))
}

/// Whether `resolved` is what a reference that was found at `path` resolves to: a readable form of
/// it, or the path as it is where it is no text.
pub open spec fn resolves_to<P>(path: CanonicalPath<P>, resolved: ResolvedPath<P>) -> bool {
    if path.is_text {
        resolved matches ResolvedPath::Text(text) && readable_form(path.display@, text@)
    } else {
        resolved == (ResolvedPath::Raw { path: path.path, display: path.display })
    }
}

/// What is said of a reference `what` to `pack`/`item` that does not resolve.
pub open spec fn reference_error(what: Seq<char>, pack: Seq<char>, item: Seq<char>, complaint: Seq<char>) -> ErrorView {
    ErrorView::Resource(what + pack + "/"@ + item + complaint)
}

/// What a reference to something of the wanted kind comes to: the path, or why there is none. That
/// it is readable is looked at first, then that it stays below the root, then what it is.
pub open spec fn reference_fault<P>(
    root: RootView<P>,
    found: Result<CanonicalPath<P>, String>,
    wanted: PathKind,
    wrong_kind: Seq<char>,
) -> Option<Seq<char>> {
    match found {
        Err(complaint) => Some(" is unreadable: "@ + complaint@),
        Ok(path) => if !root.encloses(path) {
            Some(" escapes the resource root"@)
        } else if path.kind != wanted {
            Some(wrong_kind)
        } else {
            None
        },
    }
}

/// Whether two components are the same.
fn same_bytes(a: &Vec<u8>, b: &Vec<u8>) -> (r: bool)
    ensures
        r == (a@ == b@),
{
    if a.len() != b.len() {
        return false;
    }
    let mut i: usize = 0;
    while i < a.len()
        invariant
            i <= a.len() == b.len(),
            forall|j: int| 0 <= j < i ==> a@[j] == b@[j],
        decreases a.len() - i,
    {
        if a[i] != b[i] {
            return false;
        }
        i += 1;
    }
    assert(a@ =~= b@);
    true
}

/// Whether the components `prefix` begin the components `all`.
fn begins(all: &Vec<Vec<u8>>, prefix: &Vec<Vec<u8>>) -> (r: bool)
    ensures
        r == component_bytes(prefix@).is_prefix_of(component_bytes(all@)),
{
    let ghost whole = component_bytes(all@);
    let ghost front = component_bytes(prefix@);
    if prefix.len() > all.len() {
        return false;
    }
    let mut i: usize = 0;
    while i < prefix.len()
        invariant
            i <= prefix.len() <= all.len(),
            whole == component_bytes(all@),
            front == component_bytes(prefix@),
            forall|j: int| 0 <= j < i ==> front[j] == whole[j],
        decreases prefix.len() - i,
    {
        if !same_bytes(&prefix[i], &all[i]) {
            assert(front[i as int] != whole.subrange(0, front.len() as int)[i as int]);
            return false;
        }
        i += 1;
    }
    assert(front =~= whole.subrange(0, front.len() as int));
    true
}

impl<P> ResourceRoot<P> {
    /// The root at `path`, given what the file system says of it.
    pub fn new(path: &str, found: Result<CanonicalPath<P>, String>) -> (r: Result<ResourceRoot<P>, Error>)
        ensures
            match found {
                Err(complaint) => r is Err && r->Err_0@ == ErrorView::Resource(
                    "resource root "@ + path@ + " is unreadable: "@ + complaint@,
                ),
                Ok(root) => if root.kind != PathKind::Dir {
                    r is Err && r->Err_0@ == ErrorView::Resource(
                        "resource root "@ + root.display@ + " is not a directory"@,
                    )
                } else {
                    r is Ok && r->Ok_0@ == (RootView {
                        path: root.path,
                        components: component_bytes(root.components@),
                    })
                },
            },
    {
        match found {
            Err(complaint) => Err(
                Error::Resource(cat4("resource root ", path, " is unreadable: ", complaint.as_str())),
            ),
            Ok(root) => if root.kind != PathKind::Dir {
                Err(
                    Error::Resource(
                        cat3("resource root ", root.display.as_str(), " is not a directory"),
                    ),
                )
            } else {
                Ok(ResourceRoot { path: root.path, components: root.components })
            },
        }
    }

    /// Left canonical (verbatim on Windows): only the file system reads it.
    pub fn path(&self) -> (path: &P)
        ensures
            *path == self@.path,
    {
        &self.path
    }

    /// The path that a reference comes to, or the words against it.
    fn resolve(&self, found: Result<CanonicalPath<P>, String>, wanted: PathKind, wrong_kind: &str) -> (r: Result<
        ResolvedPath<P>,
        String,
    >)
        ensures
            match reference_fault(self@, found, wanted, wrong_kind@) {
                Some(complaint) => r is Err && r->Err_0@ == complaint,
                None => r is Ok && resolves_to(found->Ok_0, r->Ok_0),
            },
    {
        match found {
            Err(complaint) => Err(cat(" is unreadable: ", complaint.as_str())),
            Ok(path) => {
                if !begins(&path.components, &self.components) {
                    return Err(" escapes the resource root".to_owned());
                }
                if path.kind != wanted {
                    return Err(wrong_kind.to_owned());
                }
                // arduino-cli can't read Windows `\\?\` paths; the prefix goes only after the
                // containment check on the canonical path. It never goes from a path that is no
                // text.
                if path.is_text {
                    Ok(ResolvedPath::Text(simplified(path.display.as_str())))
                } else {
                    Ok(ResolvedPath::Raw { path: path.path, display: path.display })
                }
            },
        }
    }

    /// The directory of a pack's library, given what the file system says of `pack`/`lib` below
    /// the root.
    pub fn resolve_lib_dir(&self, pack: &str, lib: &str, found: Result<CanonicalPath<P>, String>) -> (r: Result<
        ResolvedPath<P>,
        Error,
    >)
        ensures
            match reference_fault(self@, found, PathKind::Dir, " is not a directory"@) {
                Some(complaint) => r is Err && r->Err_0@ == reference_error("lib "@, pack@, lib@, complaint),
                None => r is Ok && self@.encloses(found->Ok_0) && resolves_to(found->Ok_0, r->Ok_0),
            },
    {
        match self.resolve(found, PathKind::Dir, " is not a directory") {
            Ok(dir) => Ok(dir),
            Err(complaint) => Err(
                Error::Resource(cat5("lib ", pack, "/", lib, complaint.as_str())),
            ),
        }
    }

    /// A pack's firmware image, given what the file system says of `pack`/`file` below the root.
    /// A file, not a directory: arduino-cli reads sibling images (bootloader etc.) by name.
    pub fn resolve_firmware_file(&self, pack: &str, file: &str, found: Result<CanonicalPath<P>, String>) -> (r: Result<
        ResolvedPath<P>,
        Error,
    >)
        ensures
            match reference_fault(self@, found, PathKind::File, " is not a file"@) {
                Some(complaint) => r is Err && r->Err_0@ == reference_error("firmware "@, pack@, file@, complaint),
                None => r is Ok && self@.encloses(found->Ok_0) && resolves_to(found->Ok_0, r->Ok_0),
            },
    {
        match self.resolve(found, PathKind::File, " is not a file") {
            Ok(path) => Ok(path),
            Err(complaint) => Err(
                Error::Resource(cat5("firmware ", pack, "/", file, complaint.as_str())),
            ),
        }
    }
}

/// Nothing outside the root is ever resolved, of whatever kind it is and whatever is asked for.
pub proof fn nothing_outside_the_root_resolves<P>(
    root: RootView<P>,
    path: CanonicalPath<P>,
    wanted: PathKind,
    wrong_kind: Seq<char>,
)
    requires
        !root.encloses(path),
    ensures
        reference_fault(root, Ok(path), wanted, wrong_kind) == Some(" escapes the resource root"@),
{
}

/// A reference resolves just where something is found, it lies at or below the root, component by
/// component, and it is of the kind that is wanted.
pub proof fn a_reference_resolves_only_below_the_root<P>(
    root: RootView<P>,
    found: Result<CanonicalPath<P>, String>,
    wanted: PathKind,
    wrong_kind: Seq<char>,
)
    ensures
        reference_fault(root, found, wanted, wrong_kind) is None <==> {
            &&& found matches Ok(path)
            &&& root.components.len() <= path.components@.len()
            &&& forall|i: int| 0 <= i < root.components.len() ==> #[trigger] root.components[i] == path.components@[i]@
            &&& path.kind == wanted
        },
{
    if let Ok(path) = found {
        let whole = component_bytes(path.components@);
        let n = root.components.len() as int;
        if root.encloses(path) {
            assert forall|i: int| 0 <= i < n implies #[trigger] root.components[i] == path.components@[i]@ by {
                assert(whole.subrange(0, n)[i] == whole[i]);
            }
        }
        if n <= whole.len() && forall|i: int| 0 <= i < n ==> #[trigger] root.components[i] == path.components@[i]@ {
            assert(whole.subrange(0, n) =~= root.components);
        }
    }
}

/// What is said of a reference that does not resolve: that it is unreadable, in the file system's
/// words; else that it escapes the root; else what it is not.
pub proof fn a_bad_reference_is_told_why<P>(
    root: RootView<P>,
    found: Result<CanonicalPath<P>, String>,
    wanted: PathKind,
    wrong_kind: Seq<char>,
)
    ensures
        found matches Err(complaint) ==> reference_fault(root, found, wanted, wrong_kind) == Some(
            " is unreadable: "@ + complaint@,
        ),
        found matches Ok(path) ==> {
            let inside = root.components.len() <= path.components@.len() && forall|i: int|
                0 <= i < root.components.len() ==> #[trigger] root.components[i] == path.components@[i]@;
            &&& !inside ==> reference_fault(root, found, wanted, wrong_kind) == Some(" escapes the resource root"@)
            &&& inside && path.kind != wanted ==> reference_fault(root, found, wanted, wrong_kind) == Some(wrong_kind)
        },
{
    a_reference_resolves_only_below_the_root(root, found, wanted, wrong_kind);
    if let Ok(path) = found {
        a_reference_resolves_only_below_the_root(root, found, path.kind, wrong_kind);
    }
}

/// The error names the pack and the item, and says what is wrong with them.
pub proof fn a_reference_error_names_the_reference(what: Seq<char>, pack: Seq<char>, item: Seq<char>, complaint: Seq<char>)
    ensures
        reference_error(what, pack, item, complaint).message() == "resource: "@ + (what + pack + seq!['/'] + item + complaint),
        reference_error(what, pack, item, complaint).code() == "resource"@,
        reference_error(what, pack, item, complaint).status() == 400,
{
    reveal_strlit("/");
    assert("/"@ =~= seq!['/']);
}

/// A reference resolves to the path that was found: as it is, or, for a text, without a leading
/// verbatim prefix.
pub proof fn a_reference_resolves_to_what_was_found<P>(path: CanonicalPath<P>, resolved: ResolvedPath<P>)
    requires
        resolves_to(path, resolved),
    ensures
        path.is_text ==> (resolved matches ResolvedPath::Text(text) && (text@ == path.display@ || path.display@
            == "\\\\?\\"@ + text@)),
        !path.is_text ==> (resolved matches ResolvedPath::Raw { path: raw, display } && raw == path.path && display
            == path.display),
{
    reveal_strlit("\\\\?\\");
    if path.is_text {
        let text = resolved->Text_0;
        if text@ != path.display@ {
            assert("\\\\?\\"@ + text@ =~= path.display@) by {
                assert(path.display@.subrange(0, 4) =~= "\\\\?\\"@);
            }
        }
    }
}

/// A library resolves just where its path was found, lies at or below the root component by component
/// and is a directory, and a firmware image just where it is a file.
pub proof fn a_pack_reaches_only_below_the_root<P>(
    root: &ResourceRoot<P>,
    pack: &str,
    item: &str,
    found: Result<CanonicalPath<P>, String>,
    lib: Result<ResolvedPath<P>, Error>,
    firmware: Result<ResolvedPath<P>, Error>,
)
    requires
        call_ensures(ResourceRoot::<P>::resolve_lib_dir, (root, pack, item, found), lib),
        call_ensures(ResourceRoot::<P>::resolve_firmware_file, (root, pack, item, found), firmware),
    ensures
        lib is Ok <==> {
            &&& found matches Ok(path)
            &&& root@.components.len() <= path.components@.len()
            &&& forall|i: int| 0 <= i < root@.components.len() ==> #[trigger] root@.components[i] == path.components@[i]@
            &&& path.kind == PathKind::Dir
        },
        firmware is Ok <==> {
            &&& found matches Ok(path)
            &&& root@.components.len() <= path.components@.len()
            &&& forall|i: int| 0 <= i < root@.components.len() ==> #[trigger] root@.components[i] == path.components@[i]@
            &&& path.kind == PathKind::File
        },
        lib matches Err(e) ==> e@.code() == "resource"@ && e@.status() == 400,
        firmware matches Err(e) ==> e@.code() == "resource"@ && e@.status() == 400,
{
    a_reference_resolves_only_below_the_root(root@, found, PathKind::Dir, " is not a directory"@);
    a_reference_resolves_only_below_the_root(root@, found, PathKind::File, " is not a file"@);
}

/// The root is the directory that was named: its path and its components are those that were found.
pub proof fn the_root_is_the_directory_that_was_named<P>(
    path: &str,
    found: Result<CanonicalPath<P>, String>,
    r: Result<ResourceRoot<P>, Error>,
)
    requires
        call_ensures(ResourceRoot::<P>::new, (path, found), r),
    ensures
        r is Ok <==> (found matches Ok(dir) && dir.kind == PathKind::Dir),
        r matches Ok(root) ==> {
            &&& root@.path == found->Ok_0.path
            &&& root@.components.len() == found->Ok_0.components@.len()
            &&& forall|i: int|
                0 <= i < root@.components.len() ==> #[trigger] root@.components[i] == found->Ok_0.components@[i]@
        },
{
}

} // verus!
