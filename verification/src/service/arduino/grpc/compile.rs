//! `Compile`: the request that is sent, the events that come back, and the artifact that a build
//! directory holds.

use vstd::prelude::*;

use crate::error::{Error, ErrorView};
use crate::outside;
use crate::outside::decode_text;
use crate::server::protocol::{Artifact, ArtifactPart, ArtifactPartView, ArtifactView, CompileOptions, Percent};
use crate::service::arduino::grpc::Instance;
use crate::text;
use crate::text::{
    cat, chars_of, has_suffix, parse_hex_u32, same, string_of, strip_prefix, trim, trim_start_matches,
};

verus! {

/// One step of a compile, in the helper's own shapes.
#[derive(Debug)]
pub enum CompileEvent {
    Log(String),
    Progress { phase: String, percent: Percent },
    Done(Artifact),
}

/// A [`CompileEvent`] with its texts as character sequences.
pub enum CompileEventView {
    Log(Seq<char>),
    Progress { phase: Seq<char>, percent: Percent },
    Done(ArtifactView),
}

impl View for CompileEvent {
    type V = CompileEventView;

    open spec fn view(&self) -> CompileEventView {
        match self {
            CompileEvent::Log(chunk) => CompileEventView::Log(chunk@),
            CompileEvent::Progress { phase, percent } => CompileEventView::Progress {
                phase: phase@,
                percent: *percent,
            },
            CompileEvent::Done(artifact) => CompileEventView::Done(artifact@),
        }
    }
}

/// What the daemon is asked to compile.
pub struct CompileRequest {
    pub instance: Option<Instance>,
    pub fqbn: String,
    pub sketch_path: String,
    pub verbose: bool,
    pub warnings: String,
    /// Each entry is a single-library root directory.
    pub library: Vec<String>,
    pub build_properties: Vec<String>,
}

/// A copy of a list of strings.
fn copied(strings: &Vec<String>) -> (r: Vec<String>)
    ensures
        text::texts(r@) == text::texts(strings@),
{
    let mut r: Vec<String> = Vec::new();
    let mut i: usize = 0;
    while i < strings.len()
        invariant
            i <= strings.len(),
            r.len() == i,
            forall|j: int| 0 <= j < i ==> (#[trigger] r@[j])@ == strings@[j]@,
        decreases strings.len() - i,
    {
        r.push(strings[i].clone());
        i += 1;
    }
    assert(text::texts(r@) =~= text::texts(strings@));
    r
}

/// Builds the `CompileRequest`: the libraries that the options name, then the vendored ones.
/// `sketch_path` is a sketch directory; arduino-cli doesn't compile raw source.
pub fn build_compile_request(
    instance: Instance,
    fqbn: &str,
    sketch_path: &str,
    opts: &CompileOptions,
    lib_dirs: &Vec<String>,
) -> (req: CompileRequest)
    ensures
        req.instance == Some(instance),
        req.fqbn@ == fqbn@,
        req.sketch_path@ == sketch_path@,
        req.verbose == opts.verbose,
        req.warnings@ == (match text::opt_text(opts.warnings) {
            Some(level) => level,
            None => seq![],
        }),
        text::texts(req.library@) == text::texts(opts.libraries@) + text::texts(lib_dirs@),
        text::texts(req.build_properties@) == text::texts(opts.build_properties@),
{
    let mut library = copied(&opts.libraries);
    let mut vendored = copied(lib_dirs);
    let ghost (a, b) = (library@, vendored@);
    library.append(&mut vendored);
    assert(text::texts(library@) =~= text::texts(a) + text::texts(b));
    let warnings = match &opts.warnings {
        Some(level) => level.clone(),
        None => String::new(),
    };
    CompileRequest {
        instance: Some(instance),
        fqbn: fqbn.to_owned(),
        sketch_path: sketch_path.to_owned(),
        verbose: opts.verbose,
        warnings,
        library,
        build_properties: copied(&opts.build_properties),
    }
}

/// What a compile response says.
pub enum CompileMessage {
    OutStream(Vec<u8>),
    ErrStream(Vec<u8>),
    Progress { name: String, message: String, percent: Percent },
    /// The build is done: where it is, what is there, and the properties it was made with.
    Result { build_path: String, build: BuildDir, build_properties: Vec<String> },
}

/// The event that a compile response stands for, if it stands for one.
pub open spec fn translated(message: Option<CompileMessage>) -> Option<Result<CompileEventView, ErrorView>> {
    match message {
        None => None,
        Some(CompileMessage::OutStream(bytes)) => Some(Ok(CompileEventView::Log(outside::text_of(bytes@)))),
        Some(CompileMessage::ErrStream(bytes)) => Some(Ok(CompileEventView::Log(outside::text_of(bytes@)))),
        Some(CompileMessage::Progress { name, message, percent }) => Some(
            Ok(
                CompileEventView::Progress {
                    phase: if name@.len() == 0 { message@ } else { name@ },
                    percent,
                },
            ),
        ),
        Some(CompileMessage::Result { build_path, build, build_properties }) => match artifact_in(
            build,
            text::texts(build_properties@),
        ) {
            Some(artifact) => Some(Ok(CompileEventView::Done(artifact))),
            None => Some(
                Err(
                    ErrorView::Daemon("compile produced no flashable artifact in "@ + build_path@),
                ),
            ),
        },
    }
}

/// An event or an error as what it says.
pub open spec fn outcome_view(r: Option<Result<CompileEvent, Error>>) -> Option<Result<CompileEventView, ErrorView>> {
    match r {
        None => None,
        Some(Ok(event)) => Some(Ok(event@)),
        Some(Err(e)) => Some(Err(e@)),
    }
}

/// Maps a compile response to the event that it stands for, or to none for an empty frame.
pub fn translate(message: Option<CompileMessage>) -> (r: Option<Result<CompileEvent, Error>>)
    ensures
        outcome_view(r) == translated(message),
{
    match message {
        None => None,
        Some(CompileMessage::OutStream(bytes)) => Some(
            Ok(CompileEvent::Log(decode_text(bytes.as_slice()))),
        ),
        Some(CompileMessage::ErrStream(bytes)) => Some(
            Ok(CompileEvent::Log(decode_text(bytes.as_slice()))),
        ),
        Some(CompileMessage::Progress { name, message, percent }) => Some(
            Ok(
                CompileEvent::Progress {
                    phase: if name.as_str().is_empty() { message } else { name },
                    percent,
                },
            ),
        ),
        Some(CompileMessage::Result { build_path, build, build_properties }) => match find_artifact(
            &build,
            build_properties.as_slice(),
        ) {
            Some(artifact) => Some(Ok(CompileEvent::Done(artifact))),
            None => Some(
                Err(
                    Error::Daemon(
                        cat("compile produced no flashable artifact in ", build_path.as_str()),
                    ),
                ),
            ),
        },
    }
}

/// One member of a build directory.
pub struct BuildEntry {
    /// The file name, lossily decoded where it is not UTF-8.
    pub name: String,
    /// Whether `name` is the file name as it is.
    pub exact: bool,
    /// The path of the member.
    pub path: String,
    /// Whether it is a regular file, links followed.
    pub is_file: bool,
}

/// A regular file that a build directory has under a name that was asked for.
pub struct BuildImage {
    /// The name that was asked for. The directory may spell it otherwise, where case does not
    /// count.
    pub name: String,
    /// The path under that name.
    pub path: String,
}

/// What a build directory holds. A directory that cannot be read holds nothing.
pub struct BuildDir {
    /// Its members, in the order in which they were listed.
    pub entries: Vec<BuildEntry>,
    /// Those of the [`images_to_ask`] that are there.
    pub images: Vec<BuildImage>,
}

/// The place of the first entry whose name ends with `suffix`.
pub open spec fn first_ending(entries: Seq<BuildEntry>, suffix: Seq<char>) -> Option<int>
    decreases entries.len(),
{
    if entries.len() == 0 {
        None
    } else if suffix.is_suffix_of(entries[0].name@) {
        Some(0)
    } else {
        match first_ending(entries.skip(1), suffix) {
            Some(i) => Some(i + 1),
            None => None,
        }
    }
}

proof fn lemma_first_ending(entries: Seq<BuildEntry>, suffix: Seq<char>)
    ensures
        first_ending(entries, suffix) matches Some(i) ==> 0 <= i < entries.len() && suffix.is_suffix_of(
            entries[i].name@,
        ) && (forall|j: int| 0 <= j < i ==> !suffix.is_suffix_of((#[trigger] entries[j]).name@)),
        first_ending(entries, suffix) is None ==> forall|j: int|
            0 <= j < entries.len() ==> !suffix.is_suffix_of((#[trigger] entries[j]).name@),
    decreases entries.len(),
{
    if entries.len() > 0 && !suffix.is_suffix_of(entries[0].name@) {
        let rest = entries.skip(1);
        lemma_first_ending(rest, suffix);
        assert forall|j: int| 1 <= j < entries.len() implies #[trigger] entries[j] == rest[j - 1] by {}
    }
}

/// Finds the first entry whose name ends with `suffix`.
pub fn find_binary(build: &BuildDir, suffix: &str) -> (r: Option<usize>)
    ensures
        match r {
            Some(i) => first_ending(build.entries@, suffix@) == Some(i as int) && i < build.entries@.len(),
            None => first_ending(build.entries@, suffix@) is None,
        },
{
    proof {
        lemma_first_ending(build.entries@, suffix@);
    }
    let mut i: usize = 0;
    while i < build.entries.len()
        invariant
            i <= build.entries.len(),
            forall|j: int| 0 <= j < i ==> !suffix@.is_suffix_of((#[trigger] build.entries@[j]).name@),
            first_ending(build.entries@, suffix@) matches Some(k) ==> 0 <= k < build.entries@.len()
                && suffix@.is_suffix_of(build.entries@[k].name@) && (forall|j: int|
                0 <= j < k ==> !suffix@.is_suffix_of((#[trigger] build.entries@[j]).name@)),
            first_ending(build.entries@, suffix@) is None ==> forall|j: int|
                0 <= j < build.entries@.len() ==> !suffix@.is_suffix_of((#[trigger] build.entries@[j]).name@),
        decreases build.entries.len() - i,
    {
        if has_suffix(build.entries[i].name.as_str(), suffix) {
            let ghost k = first_ending(build.entries@, suffix@)->0;
            assert(first_ending(build.entries@, suffix@) is Some);
            assert(k == i as int);
            return Some(i);
        }
        i += 1;
    }
    None
}

/// The place of the first image with the given name.
pub open spec fn image_named(images: Seq<BuildImage>, name: Seq<char>) -> Option<int>
    decreases images.len(),
{
    if images.len() == 0 {
        None
    } else if images[0].name@ == name {
        Some(0)
    } else {
        match image_named(images.skip(1), name) {
            Some(i) => Some(i + 1),
            None => None,
        }
    }
}

/// Finds the first image with the given name.
fn find_image(build: &BuildDir, name: &str) -> (r: Option<usize>)
    ensures
        match r {
            Some(i) => image_named(build.images@, name@) == Some(i as int) && i < build.images@.len(),
            None => image_named(build.images@, name@) is None,
        },
{
    let ghost all = build.images@;
    let mut i: usize = 0;
    assert(all.skip(0) =~= all);
    while i < build.images.len()
        invariant
            i <= build.images.len(),
            all == build.images@,
            image_named(all, name@) == (match image_named(all.skip(i as int), name@) {
                Some(k) => Some(k + i),
                None => None,
            }),
        decreases build.images.len() - i,
    {
        assert(all.skip(i as int).skip(1) =~= all.skip(i + 1));
        if same(build.images[i].name.as_str(), name) {
            return Some(i);
        }
        i += 1;
    }
    None
}

/// The value of the first build property that begins with `key`.
pub open spec fn property(properties: Seq<Seq<char>>, key: Seq<char>) -> Option<Seq<char>>
    decreases properties.len(),
{
    if properties.len() == 0 {
        None
    } else if key.is_prefix_of(properties[0]) {
        Some(properties[0].skip(key.len() as int))
    } else {
        property(properties.skip(1), key)
    }
}

/// The bootloader's flash offset, which the build properties give in hexadecimal.
pub open spec fn bootloader_addr(properties: Seq<Seq<char>>) -> Option<u32> {
    match property(properties, "build.bootloader_addr="@) {
        Some(value) => text::hex_u32(text::without_prefixes(text::trimmed(value), "0x"@)),
        None => None,
    }
}

/// Reads the bootloader's flash offset off the build properties.
pub fn find_bootloader_addr(properties: &[String]) -> (r: Option<u32>)
    ensures
        r == bootloader_addr(text::texts(properties@)),
{
    let ghost all = text::texts(properties@);
    let ghost key = "build.bootloader_addr="@;
    let mut i: usize = 0;
    assert(all.skip(0) =~= all);
    while i < properties.len()
        invariant
            i <= properties.len(),
            all == text::texts(properties@),
            key == "build.bootloader_addr="@,
            property(all, key) == property(all.skip(i as int), key),
        decreases properties.len() - i,
    {
        assert(all.skip(i as int)[0] == properties@[i as int]@);
        assert(all.skip(i as int).skip(1) =~= all.skip(i + 1));
        if let Some(value) = strip_prefix(properties[i].as_str(), "build.bootloader_addr=") {
            return parse_hex_u32(trim_start_matches(trim(value.as_str()).as_str(), "0x").as_str());
        }
        i += 1;
    }
    None
}

/// An image's offset and file name.
pub open spec fn image(offset: u32, name: Seq<char>) -> (u32, Seq<char>) {
    (offset, name)
}

/// The name of an app image without its `.bin`.
pub open spec fn stem_of(name: Seq<char>) -> Seq<char> {
    name.take(name.len() - 4)
}

/// The images beside the app image `stem.bin` that an ESP flash needs. The offsets mirror the
/// core's `merge-bin` recipe; only the bootloader's varies by chip.
pub open spec fn esp_siblings(stem: Seq<char>, bootloader: u32) -> Seq<(u32, Seq<char>)> {
    seq![
        image(bootloader, stem + ".bootloader.bin"@),
        image(0x8000, stem + ".partitions.bin"@),
        image(0xe000, "boot_app0.bin"@),
    ]
}

/// Where a part comes from: the image with the given name, at the given offset.
pub open spec fn part_at(images: Seq<BuildImage>, image: (u32, Seq<char>)) -> ArtifactPartView {
    ArtifactPartView {
        offset: image.0,
        path: images[image_named(images, image.1)->0].path@,
        data: None,
    }
}

/// The parts of an ESP build whose app image is the entry `app`: four images in flash order, or
/// none where the app's name is not known exactly, the bootloader's offset is not known or an
/// image is missing.
pub open spec fn esp_parts_of(images: Seq<BuildImage>, app: BuildEntry, properties: Seq<Seq<char>>) -> Seq<ArtifactPartView> {
    let stem = stem_of(app.name@);
    match bootloader_addr(properties) {
        Some(bootloader) => {
            let siblings = esp_siblings(stem, bootloader);
            if app.exact && app.is_file && image_named(images, siblings[0].1) is Some && image_named(images, siblings[1].1) is Some
                && image_named(images, siblings[2].1) is Some {
                seq![
                    part_at(images, siblings[0]),
                    part_at(images, siblings[1]),
                    part_at(images, siblings[2]),
                    ArtifactPartView { offset: 0x10000, path: app.path@, data: None },
                ]
            } else {
                seq![]
            }
        },
        None => seq![],
    }
}

/// One part, taken from the image with the given name if there is one.
fn part_from(build: &BuildDir, offset: u32, name: &str) -> (r: Option<ArtifactPart>)
    ensures
        match r {
            Some(part) => image_named(build.images@, name@) is Some && part@ == part_at(
                build.images@,
                image(offset, name@),
            ),
            None => image_named(build.images@, name@) is None,
        },
{
    match find_image(build, name) {
        Some(i) => Some(ArtifactPart { offset, path: build.images[i].path.clone(), data: None }),
        None => None,
    }
}

/// The parts of an ESP build, or none.
fn esp_parts_inner(build: &BuildDir, app: usize, build_properties: &[String]) -> (r: Option<Vec<ArtifactPart>>)
    requires
        app < build.entries@.len(),
        build.entries@[app as int].name@.len() >= 4,
        ".bin"@.is_suffix_of(build.entries@[app as int].name@),
    ensures
        match r {
            Some(parts) => parts@.map_values(|p: ArtifactPart| p@) == esp_parts_of(
                build.images@,
                build.entries@[app as int],
                text::texts(build_properties@),
            ),
            None => esp_parts_of(build.images@, build.entries@[app as int], text::texts(build_properties@)) =~= seq![],
        },
{
    let entry = &build.entries[app];
    if !entry.exact {
        return None;
    }
    let stem = strip_suffix(entry.name.as_str(), ".bin");
    let bootloader = match find_bootloader_addr(build_properties) {
        Some(addr) => addr,
        None => return None,
    };
    if !entry.is_file {
        return None;
    }
    proof {
        reveal_strlit(".bin");
    }
    let first = match part_from(build, bootloader, cat(stem.as_str(), ".bootloader.bin").as_str()) {
        Some(part) => part,
        None => return None,
    };
    let second = match part_from(build, 0x8000, cat(stem.as_str(), ".partitions.bin").as_str()) {
        Some(part) => part,
        None => return None,
    };
    let third = match part_from(build, 0xe000, "boot_app0.bin") {
        Some(part) => part,
        None => return None,
    };
    let mut parts: Vec<ArtifactPart> = Vec::new();
    parts.push(first);
    parts.push(second);
    parts.push(third);
    parts.push(ArtifactPart { offset: 0x10000, path: entry.path.clone(), data: None });
    assert(parts@.map_values(|p: ArtifactPart| p@) =~= esp_parts_of(
        build.images@,
        build.entries@[app as int],
        text::texts(build_properties@),
    ));
    Some(parts)
}

/// `s` without `suffix` at its end.
fn strip_suffix(s: &str, suffix: &str) -> (r: String)
    requires
        suffix@.is_suffix_of(s@),
    ensures
        r@ == s@.take(s@.len() - suffix@.len()),
{
    let chars = chars_of(s);
    let tail = chars_of(suffix);
    let kept = vstd::slice::slice_subrange(chars.as_slice(), 0, chars.len() - tail.len());
    assert(kept@ =~= s@.take(s@.len() - suffix@.len()));
    string_of(kept)
}

/// The parts of an ESP build: all four images, or none.
fn esp_parts(build: &BuildDir, app: usize, build_properties: &[String]) -> (parts: Vec<ArtifactPart>)
    requires
        app < build.entries@.len(),
        build.entries@[app as int].name@.len() >= 4,
        ".bin"@.is_suffix_of(build.entries@[app as int].name@),
    ensures
        parts@.map_values(|p: ArtifactPart| p@) == esp_parts_of(
            build.images@,
            build.entries@[app as int],
            text::texts(build_properties@),
        ),
{
    match esp_parts_inner(build, app, build_properties) {
        Some(parts) => parts,
        None => {
            let none: Vec<ArtifactPart> = Vec::new();
            assert(none@.map_values(|p: ArtifactPart| p@) =~= seq![]);
            none
        },
    }
}

/// The artifact that a build directory holds: an Intel HEX where there is one, else a plain
/// binary with its ESP parts. The `.ino.<ext>` suffix skips merged variants like
/// `*.ino.with_bootloader.hex`.
pub open spec fn artifact_in(build: BuildDir, properties: Seq<Seq<char>>) -> Option<ArtifactView> {
    let entries = build.entries@;
    match first_ending(entries, ".ino.hex"@) {
        Some(i) => Some(
            ArtifactView { format: "hex"@, path: entries[i].path@, data: None, parts: seq![] },
        ),
        None => match first_ending(entries, ".ino.bin"@) {
            Some(i) => Some(
                ArtifactView {
                    format: "bin"@,
                    path: entries[i].path@,
                    data: None,
                    parts: esp_parts_of(build.images@, entries[i], properties),
                },
            ),
            None => None,
        },
    }
}

/// Finds the artifact in a build directory.
pub fn find_artifact(build: &BuildDir, build_properties: &[String]) -> (r: Option<Artifact>)
    ensures
        match r {
            Some(artifact) => artifact_in(*build, text::texts(build_properties@)) == Some(artifact@),
            None => artifact_in(*build, text::texts(build_properties@)) is None,
        },
{
    if let Some(i) = find_binary(build, ".ino.hex") {
        let artifact = Artifact {
            format: "hex".to_owned(),
            path: build.entries[i].path.clone(),
            data: None,
            parts: Vec::new(),
        };
        assert(artifact@.parts =~= seq![]);
        return Some(artifact);
    }
    match find_binary(build, ".ino.bin") {
        Some(i) => {
            proof {
                lemma_first_ending(build.entries@, ".ino.bin"@);
                lemma_bin_suffix(build.entries@[i as int].name@);
            }
            let parts = esp_parts(build, i, build_properties);
            Some(
                Artifact {
                    format: "bin".to_owned(),
                    path: build.entries[i].path.clone(),
                    data: None,
                    parts,
                },
            )
        },
        None => None,
    }
}

/// The names of the images that a build directory is to be asked for: those beside the app image,
/// where a plain binary is the artifact.
pub open spec fn asked_images(entries: Seq<BuildEntry>) -> Seq<Seq<char>> {
    match first_ending(entries, ".ino.bin"@) {
        Some(i) => if first_ending(entries, ".ino.hex"@) is None && entries[i].exact {
            seq![
                stem_of(entries[i].name@) + ".bootloader.bin"@,
                stem_of(entries[i].name@) + ".partitions.bin"@,
                "boot_app0.bin"@,
            ]
        } else {
            seq![]
        },
        None => seq![],
    }
}

/// Names the images that a build directory is to be asked for, given its listing.
pub fn images_to_ask(listing: &BuildDir) -> (names: Vec<String>)
    ensures
        text::texts(names@) == asked_images(listing.entries@),
{
    let mut names: Vec<String> = Vec::new();
    if find_binary(listing, ".ino.hex").is_none() {
        if let Some(i) = find_binary(listing, ".ino.bin") {
            if listing.entries[i].exact {
                proof {
                    lemma_first_ending(listing.entries@, ".ino.bin"@);
                    lemma_bin_suffix(listing.entries@[i as int].name@);
                    reveal_strlit(".bin");
                }
                let stem = strip_suffix(listing.entries[i].name.as_str(), ".bin");
                names.push(cat(stem.as_str(), ".bootloader.bin"));
                names.push(cat(stem.as_str(), ".partitions.bin"));
                names.push("boot_app0.bin".to_owned());
            }
        }
    }
    assert(text::texts(names@) =~= asked_images(listing.entries@));
    names
}

/// A build directory is asked for every image that its parts are made of.
pub proof fn every_sibling_is_asked_for(build: BuildDir, properties: Seq<Seq<char>>, k: int)
    requires
        artifact_in(build, properties) is Some,
        artifact_in(build, properties)->0.parts.len() > 0,
        0 <= k < 3,
    ensures
        ({
            let i = first_ending(build.entries@, ".ino.bin"@)->0;
            asked_images(build.entries@).contains(
                esp_siblings(
                    stem_of(build.entries@[i].name@),
                    bootloader_addr(properties)->0,
                )[k].1,
            )
        }),
{
    let i = first_ending(build.entries@, ".ino.bin"@)->0;
    let asked = asked_images(build.entries@);
    assert(asked.len() == 3);
    assert(asked[k] == esp_siblings(stem_of(build.entries@[i].name@), bootloader_addr(properties)->0)[k].1);
}

proof fn lemma_bin_suffix(name: Seq<char>)
    requires
        ".ino.bin"@.is_suffix_of(name),
    ensures
        name.len() >= 4,
        ".bin"@.is_suffix_of(name),
{
    reveal_strlit(".ino.bin");
    reveal_strlit(".bin");
    let tail = name.subrange(name.len() - 8, name.len() as int);
    assert(tail == ".ino.bin"@);
    assert forall|i: int| 0 <= i < 4 implies name.subrange(name.len() - 4, name.len() as int)[i] == ".bin"@[i] by {
        assert(name.subrange(name.len() - 4, name.len() as int)[i] == tail[i + 4]);
    }
    assert(name.subrange(name.len() - 4, name.len() as int) =~= ".bin"@);
}

/// An Intel HEX is chosen over a plain binary, and has no parts: it carries its own addresses.
pub proof fn hex_wins_and_has_no_parts(build: BuildDir, properties: Seq<Seq<char>>, i: int)
    requires
        0 <= i < build.entries@.len(),
        ".ino.hex"@.is_suffix_of(build.entries@[i].name@),
    ensures
        artifact_in(build, properties) is Some,
        artifact_in(build, properties)->0.format == "hex"@,
        artifact_in(build, properties)->0.parts.len() == 0,
{
    lemma_first_ending(build.entries@, ".ino.hex"@);
}

/// A build directory has an artifact just where some name ends with `.ino.hex` or `.ino.bin`.
pub proof fn artifact_exists_iff_a_name_fits(build: BuildDir, properties: Seq<Seq<char>>)
    ensures
        artifact_in(build, properties) is Some <==> exists|i: int|
            0 <= i < build.entries@.len() && (".ino.hex"@.is_suffix_of((#[trigger] build.entries@[i]).name@)
                || ".ino.bin"@.is_suffix_of(build.entries@[i].name@)),
{
    lemma_first_ending(build.entries@, ".ino.hex"@);
    lemma_first_ending(build.entries@, ".ino.bin"@);
}

/// A partial image set is never flashed: an artifact has no parts or all four, at the
/// bootloader's offset, 0x8000, 0xe000 and 0x10000, the last one the artifact itself.
pub proof fn parts_come_all_or_none(build: BuildDir, properties: Seq<Seq<char>>)
    requires
        artifact_in(build, properties) is Some,
    ensures
        ({
            let artifact = artifact_in(build, properties)->0;
            let parts = artifact.parts;
            parts.len() == 0 || {
                &&& artifact.format == "bin"@
                &&& parts.len() == 4
                &&& Some(parts[0].offset) == bootloader_addr(properties)
                &&& parts[1].offset == 0x8000
                &&& parts[2].offset == 0xe000
                &&& parts[3].offset == 0x10000
                &&& parts[3].path == artifact.path
            }
        }),
{
}

/// Whether `k` is the place of the first image named `name`.
pub open spec fn is_first_named(images: Seq<BuildImage>, k: int, name: Seq<char>) -> bool {
    &&& 0 <= k < images.len()
    &&& images[k].name@ == name
    &&& forall|j: int| 0 <= j < k ==> (#[trigger] images[j]).name@ != name
}

/// Whether `i` is the place of the first entry whose name ends with `suffix`.
pub open spec fn is_first_ending(entries: Seq<BuildEntry>, i: int, suffix: Seq<char>) -> bool {
    &&& 0 <= i < entries.len()
    &&& suffix.is_suffix_of(entries[i].name@)
    &&& forall|j: int| 0 <= j < i ==> !suffix.is_suffix_of((#[trigger] entries[j]).name@)
}

/// Whether no entry's name ends with `suffix`.
pub open spec fn none_ends(entries: Seq<BuildEntry>, suffix: Seq<char>) -> bool {
    forall|j: int| 0 <= j < entries.len() ==> !suffix.is_suffix_of((#[trigger] entries[j]).name@)
}

proof fn lemma_image_named(images: Seq<BuildImage>, name: Seq<char>)
    ensures
        image_named(images, name) matches Some(k) ==> is_first_named(images, k, name),
        image_named(images, name) is None ==> forall|j: int|
            0 <= j < images.len() ==> (#[trigger] images[j]).name@ != name,
    decreases images.len(),
{
    if images.len() > 0 && images[0].name@ != name {
        let rest = images.skip(1);
        lemma_image_named(rest, name);
        assert forall|j: int| 1 <= j < images.len() implies #[trigger] images[j] == rest[j - 1] by {}
    }
}

proof fn lemma_first_named(images: Seq<BuildImage>, k: int, name: Seq<char>)
    requires
        is_first_named(images, k, name),
    ensures
        image_named(images, name) == Some(k),
{
    lemma_image_named(images, name);
    let m = image_named(images, name);
    if m is Some && m->0 < k {
        assert(images[m->0].name@ != name);
    }
    if m is Some && k < m->0 {
        assert(images[k].name@ != name);
    }
}

proof fn lemma_is_first_ending(entries: Seq<BuildEntry>, i: int, suffix: Seq<char>)
    requires
        is_first_ending(entries, i, suffix),
    ensures
        first_ending(entries, suffix) == Some(i),
{
    lemma_first_ending(entries, suffix);
    let m = first_ending(entries, suffix);
    if m is Some && m->0 < i {
        assert(!suffix.is_suffix_of(entries[m->0].name@));
    }
    if m is Some && i < m->0 {
        assert(!suffix.is_suffix_of(entries[i].name@));
    }
}

proof fn lemma_stem(name: Seq<char>, s: Seq<char>)
    requires
        name == s + ".bin"@,
    ensures
        stem_of(name) == s,
{
    reveal_strlit(".bin");
    assert(stem_of(name) =~= s);
}

/// An ESP build whose app image is `s` with a `.bin` behind it is flashed from four images: the
/// bootloader and the partition table that go by the same `s`, the boot selector, and the app
/// itself, each at its offset. The build directory is asked for just those three siblings.
pub proof fn a_complete_esp_build_has_its_four_images(
    build: BuildDir,
    properties: Seq<Seq<char>>,
    i: int,
    s: Seq<char>,
    addr: u32,
    bootloader: int,
    partitions: int,
    selector: int,
)
    requires
        none_ends(build.entries@, ".ino.hex"@),
        is_first_ending(build.entries@, i, ".ino.bin"@),
        build.entries@[i].name@ == s + ".bin"@,
        build.entries@[i].exact,
        build.entries@[i].is_file,
        bootloader_addr(properties) == Some(addr),
        is_first_named(build.images@, bootloader, s + ".bootloader.bin"@),
        is_first_named(build.images@, partitions, s + ".partitions.bin"@),
        is_first_named(build.images@, selector, "boot_app0.bin"@),
    ensures
        asked_images(build.entries@) == seq![s + ".bootloader.bin"@, s + ".partitions.bin"@, "boot_app0.bin"@],
        artifact_in(build, properties) == Some(
            ArtifactView {
                format: "bin"@,
                path: build.entries@[i].path@,
                data: None,
                parts: seq![
                    ArtifactPartView { offset: addr, path: build.images@[bootloader].path@, data: None },
                    ArtifactPartView { offset: 0x8000, path: build.images@[partitions].path@, data: None },
                    ArtifactPartView { offset: 0xe000, path: build.images@[selector].path@, data: None },
                    ArtifactPartView { offset: 0x10000, path: build.entries@[i].path@, data: None },
                ],
            },
        ),
{
    lemma_first_ending(build.entries@, ".ino.hex"@);
    lemma_is_first_ending(build.entries@, i, ".ino.bin"@);
    lemma_stem(build.entries@[i].name@, s);
    lemma_first_named(build.images@, bootloader, s + ".bootloader.bin"@);
    lemma_first_named(build.images@, partitions, s + ".partitions.bin"@);
    lemma_first_named(build.images@, selector, "boot_app0.bin"@);
}

/// A build directory without an Intel HEX is asked for the siblings of its app image `s` with a
/// `.bin` behind it, where that name is known exactly, whatever else it holds.
pub proof fn the_siblings_of_the_app_are_asked_for(entries: Seq<BuildEntry>, i: int, s: Seq<char>)
    requires
        none_ends(entries, ".ino.hex"@),
        is_first_ending(entries, i, ".ino.bin"@),
        entries[i].name@ == s + ".bin"@,
    ensures
        asked_images(entries) == if entries[i].exact {
            seq![s + ".bootloader.bin"@, s + ".partitions.bin"@, "boot_app0.bin"@]
        } else {
            seq![]
        },
{
    lemma_first_ending(entries, ".ino.hex"@);
    lemma_is_first_ending(entries, i, ".ino.bin"@);
    lemma_stem(entries[i].name@, s);
}

/// A build directory with an Intel HEX, or with no app image, is asked for nothing.
pub proof fn nothing_is_asked_for_in_vain(entries: Seq<BuildEntry>)
    requires
        none_ends(entries, ".ino.bin"@) || !none_ends(entries, ".ino.hex"@),
    ensures
        asked_images(entries).len() == 0,
{
    lemma_first_ending(entries, ".ino.hex"@);
    lemma_first_ending(entries, ".ino.bin"@);
}

/// Where the app's name is not known exactly, the app is no regular file, the bootloader's offset is
/// not known or a sibling is missing, the app image is flashed alone.
pub proof fn an_incomplete_esp_build_has_no_parts(
    build: BuildDir,
    properties: Seq<Seq<char>>,
    i: int,
    s: Seq<char>,
    missing: Seq<char>,
)
    requires
        none_ends(build.entries@, ".ino.hex"@),
        is_first_ending(build.entries@, i, ".ino.bin"@),
        build.entries@[i].name@ == s + ".bin"@,
        ({
            ||| !build.entries@[i].exact
            ||| !build.entries@[i].is_file
            ||| bootloader_addr(properties) is None
            ||| {
                &&& missing == s + ".bootloader.bin"@ || missing == s + ".partitions.bin"@ || missing == "boot_app0.bin"@
                &&& forall|k: int| 0 <= k < build.images@.len() ==> (#[trigger] build.images@[k]).name@ != missing
            }
        }),
    ensures
        artifact_in(build, properties) == Some(
            ArtifactView {
                format: "bin"@,
                path: build.entries@[i].path@,
                data: None,
                parts: seq![],
            },
        ),
{
    lemma_first_ending(build.entries@, ".ino.hex"@);
    lemma_is_first_ending(build.entries@, i, ".ino.bin"@);
    lemma_stem(build.entries@[i].name@, s);
    lemma_image_named(build.images@, s + ".bootloader.bin"@);
    lemma_image_named(build.images@, s + ".partitions.bin"@);
    lemma_image_named(build.images@, "boot_app0.bin"@);
    assert(esp_parts_of(build.images@, build.entries@[i], properties) =~= seq![]);
}

/// The first Intel HEX in the listing is the artifact, alone.
pub proof fn the_first_hex_is_the_artifact(build: BuildDir, properties: Seq<Seq<char>>, i: int)
    requires
        is_first_ending(build.entries@, i, ".ino.hex"@),
    ensures
        artifact_in(build, properties) == Some(
            ArtifactView { format: "hex"@, path: build.entries@[i].path@, data: None, parts: seq![] },
        ),
{
    lemma_is_first_ending(build.entries@, i, ".ino.hex"@);
}

/// The bootloader's offset stands behind `build.bootloader_addr=` in the first build property that
/// begins so: a hexadecimal number, with any `0x` in front and any white space round it put aside.
pub proof fn the_bootloader_offset_is_read_in_hex(
    properties: Seq<Seq<char>>,
    p: int,
    before: Seq<char>,
    n: nat,
    number: Seq<char>,
    behind: Seq<char>,
    addr: u32,
)
    requires
        0 <= p < properties.len(),
        forall|j: int| 0 <= j < p ==> !"build.bootloader_addr="@.is_prefix_of(#[trigger] properties[j]),
        properties[p] == "build.bootloader_addr="@ + (before + (text::repeated("0x"@, n) + number) + behind),
        forall|j: int| 0 <= j < before.len() ==> text::white_space(#[trigger] before[j]),
        forall|j: int| 0 <= j < behind.len() ==> text::white_space(#[trigger] behind[j]),
        !"0x"@.is_prefix_of(number),
        ({
            let core = text::repeated("0x"@, n) + number;
            core.len() > 0 ==> !text::white_space(core[0]) && !text::white_space(core.last())
        }),
    ensures
        bootloader_addr(properties) == Some(addr) <==> text::writes_hex(number, addr as nat) || (number.len() > 0
            && number[0] == '+' && text::writes_hex(number.skip(1), addr as nat)),
{
    let core = text::repeated("0x"@, n) + number;
    let value = before + core + behind;
    lemma_property(properties, "build.bootloader_addr="@, p, value);
    text::trimming_takes_the_white_space_only(before, core, behind);
    reveal_strlit("0x");
    text::every_leading_prefix_goes("0x"@, n, number);
    text::a_hex_number_is_what_its_digits_write(number, addr);
}

/// Without a build property that begins with `build.bootloader_addr=` the offset is not known.
pub proof fn no_property_means_no_offset(properties: Seq<Seq<char>>)
    requires
        forall|j: int| 0 <= j < properties.len() ==> !"build.bootloader_addr="@.is_prefix_of(#[trigger] properties[j]),
    ensures
        bootloader_addr(properties) is None,
    decreases properties.len(),
{
    if properties.len() > 0 {
        let rest = properties.skip(1);
        assert forall|j: int| 0 <= j < rest.len() implies !"build.bootloader_addr="@.is_prefix_of(#[trigger] rest[j]) by {
            assert(rest[j] == properties[j + 1]);
        }
        no_property_means_no_offset(rest);
    }
}

proof fn lemma_property(properties: Seq<Seq<char>>, key: Seq<char>, p: int, value: Seq<char>)
    requires
        0 <= p < properties.len(),
        forall|j: int| 0 <= j < p ==> !key.is_prefix_of(#[trigger] properties[j]),
        properties[p] == key + value,
    ensures
        property(properties, key) == Some(value),
    decreases p,
{
    if p == 0 {
        text::a_prefix_can_be_put_back(properties[0], key, value);
    } else {
        let rest = properties.skip(1);
        assert forall|j: int| 0 <= j < p - 1 implies !key.is_prefix_of(#[trigger] rest[j]) by {
            assert(rest[j] == properties[j + 1]);
        }
        assert(rest[p - 1] == properties[p]);
        assert(!key.is_prefix_of(properties[0]));
        lemma_property(rest, key, p - 1, value);
    }
}

/// The compiler's words reach the editor as they were written, from either stream.
pub proof fn a_compile_log_keeps_its_text(bytes: Vec<u8>, written: Seq<char>)
    requires
        bytes@ == vstd::utf8::encode_utf8(written),
    ensures
        translated(Some(CompileMessage::OutStream(bytes))) == Some(
            Ok::<CompileEventView, ErrorView>(CompileEventView::Log(written)),
        ),
        translated(Some(CompileMessage::ErrStream(bytes))) == Some(
            Ok::<CompileEventView, ErrorView>(CompileEventView::Log(written)),
        ),
{
    outside::text_is_read_back(written);
}

/// A compile is done just when the daemon reports a build that holds an artifact, and fails just
/// when that build holds none.
pub proof fn a_compile_ends_with_its_build(message: Option<CompileMessage>)
    ensures
        (translated(message) matches Some(Ok(CompileEventView::Done(_)))) <==> (message matches Some(
            CompileMessage::Result { build, build_properties, .. },
        ) && artifact_in(build, text::texts(build_properties@)) is Some),
        (translated(message) matches Some(Err(_))) <==> (message matches Some(
            CompileMessage::Result { build, build_properties, .. },
        ) && artifact_in(build, text::texts(build_properties@)) is None),
        translated(message) matches Some(Ok(CompileEventView::Done(artifact))) ==> (message matches Some(
            CompileMessage::Result { build, build_properties, .. },
        ) && artifact_in(build, text::texts(build_properties@)) == Some(artifact)),
        message matches Some(CompileMessage::Result { build_path, build, build_properties }) ==> artifact_in(
            build,
            text::texts(build_properties@),
        ) is None ==> translated(message) == Some(
            Err::<CompileEventView, ErrorView>(
                ErrorView::Daemon("compile produced no flashable artifact in "@ + build_path@),
            ),
        ),
        message matches Some(CompileMessage::Progress { name, message: words, percent }) ==> translated(message)
            == Some(
            Ok::<CompileEventView, ErrorView>(
                CompileEventView::Progress {
                    phase: if name@ == Seq::<char>::empty() { words@ } else { name@ },
                    percent,
                },
            ),
        ),
        message is None ==> translated(message) is None,
{
    if let Some(CompileMessage::Progress { name, message: words, percent }) = message {
        if name@.len() == 0 {
            assert(name@ =~= Seq::<char>::empty());
        }
    }
}

/// The daemon is asked to compile what the editor asked for: its board, its sketch and its options,
/// with the libraries of the options first and the vendored ones behind them, in order.
pub proof fn a_compile_is_asked_for_as_it_was(
    instance: Instance,
    fqbn: &str,
    sketch_path: &str,
    opts: &CompileOptions,
    lib_dirs: &Vec<String>,
    req: CompileRequest,
)
    requires
        call_ensures(build_compile_request, (instance, fqbn, sketch_path, opts, lib_dirs), req),
    ensures
        req.instance == Some(instance),
        req.fqbn@ == fqbn@,
        req.sketch_path@ == sketch_path@,
        req.verbose == opts.verbose,
        opts.warnings matches Some(level) ==> req.warnings@ == level@,
        opts.warnings is None ==> req.warnings@.len() == 0,
        req.library@.len() == opts.libraries@.len() + lib_dirs@.len(),
        forall|i: int| 0 <= i < opts.libraries@.len() ==> (#[trigger] req.library@[i])@ == opts.libraries@[i]@,
        forall|i: int|
            0 <= i < lib_dirs@.len() ==> (#[trigger] req.library@[opts.libraries@.len() + i])@ == lib_dirs@[i]@,
        req.build_properties@.len() == opts.build_properties@.len(),
        forall|i: int|
            0 <= i < opts.build_properties@.len() ==> (#[trigger] req.build_properties@[i])@ == opts.build_properties@[i]@,
{
    let library = text::texts(req.library@);
    let (named, vendored) = (text::texts(opts.libraries@), text::texts(lib_dirs@));
    assert(library == named + vendored);
    assert(library.len() == req.library@.len());
    assert forall|i: int| 0 <= i < opts.libraries@.len() implies (#[trigger] req.library@[i])@ == opts.libraries@[i]@ by {
        assert(library[i] == named[i]);
    }
    assert forall|i: int| 0 <= i < lib_dirs@.len() implies (#[trigger] req.library@[opts.libraries@.len() + i])@
        == lib_dirs@[i]@ by {
        assert(library[opts.libraries@.len() + i] == vendored[i]);
    }
    let properties = text::texts(req.build_properties@);
    assert(properties.len() == req.build_properties@.len());
    assert forall|i: int| 0 <= i < opts.build_properties@.len() implies (#[trigger] req.build_properties@[i])@
        == opts.build_properties@[i]@ by {
        assert(properties[i] == text::texts(opts.build_properties@)[i]);
    }
}

/// The artifact that is found in a complete ESP build is its app image, with four parts: each has its
/// own file and its own offset.
pub proof fn the_artifact_of_an_esp_build_has_its_four_images(
    build: &BuildDir,
    build_properties: &[String],
    r: Option<Artifact>,
    i: int,
    s: Seq<char>,
    addr: u32,
    bootloader: int,
    partitions: int,
    selector: int,
)
    requires
        call_ensures(find_artifact, (build, build_properties), r),
        none_ends(build.entries@, ".ino.hex"@),
        is_first_ending(build.entries@, i, ".ino.bin"@),
        build.entries@[i].name@ == s + ".bin"@,
        build.entries@[i].exact,
        build.entries@[i].is_file,
        bootloader_addr(text::texts(build_properties@)) == Some(addr),
        is_first_named(build.images@, bootloader, s + ".bootloader.bin"@),
        is_first_named(build.images@, partitions, s + ".partitions.bin"@),
        is_first_named(build.images@, selector, "boot_app0.bin"@),
    ensures
        r matches Some(artifact) && {
            &&& artifact.format@ == "bin"@
            &&& artifact.path@ == build.entries@[i].path@
            &&& artifact.data is None
            &&& artifact.parts@.len() == 4
            &&& artifact.parts@[0].offset == addr
            &&& artifact.parts@[0].path@ == build.images@[bootloader].path@
            &&& artifact.parts@[1].offset == 0x8000
            &&& artifact.parts@[1].path@ == build.images@[partitions].path@
            &&& artifact.parts@[2].offset == 0xe000
            &&& artifact.parts@[2].path@ == build.images@[selector].path@
            &&& artifact.parts@[3].offset == 0x10000
            &&& artifact.parts@[3].path@ == build.entries@[i].path@
        },
{
    let properties = text::texts(build_properties@);
    a_complete_esp_build_has_its_four_images(*build, properties, i, s, addr, bootloader, partitions, selector);
    let artifact = r->0;
    let parts = artifact@.parts;
    assert(parts.len() == artifact.parts@.len());
    assert(parts[0] == artifact.parts@[0]@);
    assert(parts[1] == artifact.parts@[1]@);
    assert(parts[2] == artifact.parts@[2]@);
    assert(parts[3] == artifact.parts@[3]@);
}

/// The images that a build directory is asked for go by the app image's own name.
pub proof fn the_images_that_are_asked_for_go_by_the_app(listing: &BuildDir, names: Vec<String>, i: int, s: Seq<char>)
    requires
        call_ensures(images_to_ask, (listing,), names),
        none_ends(listing.entries@, ".ino.hex"@),
        is_first_ending(listing.entries@, i, ".ino.bin"@),
        listing.entries@[i].name@ == s + ".bin"@,
        listing.entries@[i].exact,
    ensures
        names@.len() == 3,
        names@[0]@ == s + ".bootloader.bin"@,
        names@[1]@ == s + ".partitions.bin"@,
        names@[2]@ == "boot_app0.bin"@,
{
    the_siblings_of_the_app_are_asked_for(listing.entries@, i, s);
    let asked = text::texts(names@);
    assert(asked.len() == names@.len());
    assert(asked[0] == names@[0]@);
    assert(asked[1] == names@[1]@);
    assert(asked[2] == names@[2]@);
}

/// The event that a response is turned into says what the response said: its text, its progress, or
/// the artifact of its build.
pub proof fn a_compile_event_says_what_the_daemon_said(message: Option<CompileMessage>, r: Option<Result<CompileEvent, Error>>)
    requires
        call_ensures(translate, (message,), r),
    ensures
        message is None ==> r is None,
        message matches Some(CompileMessage::OutStream(bytes)) ==> (r matches Some(Ok(CompileEvent::Log(words))) && words@
            == outside::text_of(bytes@)),
        message matches Some(CompileMessage::ErrStream(bytes)) ==> (r matches Some(Ok(CompileEvent::Log(words))) && words@
            == outside::text_of(bytes@)),
        message matches Some(CompileMessage::Progress { name, message: words, percent }) ==> (r matches Some(
            Ok(CompileEvent::Progress { phase, percent: p }),
        ) && p == percent && phase@ == if name@.len() > 0 { name@ } else { words@ }),
        message matches Some(CompileMessage::Result { build_path, build, build_properties }) ==> match artifact_in(
            build,
            text::texts(build_properties@),
        ) {
            Some(artifact) => r matches Some(Ok(CompileEvent::Done(found))) && found@ == artifact,
            None => r matches Some(Err(e)) && build_path@.is_suffix_of(e@.message()) && e@.code() == "daemon"@,
        },
{
    if let Some(CompileMessage::Result { build_path, build, build_properties }) = message {
        if artifact_in(build, text::texts(build_properties@)) is None {
            let words = r->0->Err_0@.message();
            assert(words.subrange(words.len() - build_path@.len(), words.len() as int) =~= build_path@);
        }
    }
}

} // verus!
