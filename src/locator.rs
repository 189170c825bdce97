use vstd::prelude::*;
use vstd::string::StringExecFns;
use crate::error::PathError;
use crate::invocation::InvocationGate;
use crate::symbols::Backend;

verus! {

/// Number of marker files, any of which marks a supported host's data folder.
pub const MARKER_COUNT: usize = 3;

pub open spec fn marker_name(i: int) -> Seq<char> {
    if i == 0 {
        "globalgamemanagers"@
    } else if i == 1 {
        "data.unity3d"@
    } else {
        "mainData"@
    }
}

/// The marker files looked for in the data folder.
pub fn marker_file(i: usize) -> (r: &'static str)
    requires
        i < MARKER_COUNT,
    ensures
        r@ == marker_name(i as int),
{
    if i == 0 {
        "globalgamemanagers"
    } else if i == 1 {
        "data.unity3d"
    } else {
        "mainData"
    }
}

/// What was found next to the host's executable.
pub struct HostLayout {
    /// Whether the `<name>_Data` folder exists.
    pub data_folder_exists: bool,
    /// For each marker file, whether it exists in the data folder.
    pub markers: Vec<bool>,
}

pub open spec fn spec_is_unity(layout: HostLayout) -> bool {
    layout.data_folder_exists && exists|i: int| 0 <= i < layout.markers@.len() && #[trigger] layout.markers@[i]
}

/// Whether the host is supported: its data folder exists and holds at
/// least one marker file.
pub fn is_unity(layout: &HostLayout) -> (r: bool)
    ensures
        r == spec_is_unity(*layout),
{
    if !layout.data_folder_exists {
        return false;
    }
    let mut i: usize = 0;
    while i < layout.markers.len()
        invariant
            layout.data_folder_exists,
            i <= layout.markers@.len(),
            forall|j: int| 0 <= j < i ==> !layout.markers@[j],
        decreases layout.markers@.len() - i,
    {
        if layout.markers[i] {
            assert(layout.markers@[i as int]);
            return true;
        }
        i = i + 1;
    }
    false
}

/// The composition root's start-up decision: an unsupported host gets no
/// interceptor, so no hook is ever attached; a supported one gets an Idle interceptor.
pub fn init(layout: &HostLayout) -> (r: Option<InvocationGate>)
    ensures
        r is Some == spec_is_unity(*layout),
        r matches Some(g) ==> g.wf() && g.spec_state() == crate::invocation::GateState::Idle
            && !g.spec_attach_failed(),
{
    if is_unity(layout) {
        Some(InvocationGate::new())
    } else {
        None
    }
}

/// The name of the data folder that sits next to an executable.
pub fn data_folder_name(exe_stem: &str) -> (r: String)
    ensures
        r@ == exe_stem@ + "_Data"@,
{
    String::from_str(exe_stem).concat("_Data")
}

/// The data folder's name, when the executable has a readable name and the
/// folder exists.
pub fn get_data_path(exe_stem: Option<&str>, folder_exists: bool) -> (r: Result<String, PathError>)
    ensures
        match exe_stem {
            Some(stem) => if folder_exists {
                r matches Ok(p) && p@ == stem@ + "_Data"@
            } else {
                r == Err::<String, PathError>(PathError::DataPathNotFound)
            },
            None => r == Err::<String, PathError>(PathError::DataPathNotFound),
        },
{
    match exe_stem {
        Some(stem) => if folder_exists {
            Ok(data_folder_name(stem))
        } else {
            Err(PathError::DataPathNotFound)
        },
        None => Err(PathError::DataPathNotFound),
    }
}

/// Where a candidate runtime library sits.
#[derive(Clone, Copy, Debug, PartialEq, Eq, Structural)]
pub enum Root {
    /// The folder that holds the executable.
    Base,
    /// The executable's data folder.
    Data,
}

/// One place where the dynamic-JIT runtime library may be:
/// `<root>/<folder>[/<subdir>]/<stem>.<platform library extension>`.
pub struct LibCandidate {
    pub root: Root,
    pub folder: &'static str,
    pub subdir: Option<&'static str>,
    pub stem: &'static str,
}

pub const FOLDER_COUNT: usize = 4;
pub const STEM_COUNT: usize = 6;
pub const PLACE_COUNT: usize = 5;
/// Number of candidates: every folder, library name and place.
pub const MONO_CANDIDATE_COUNT: usize = 120;

pub open spec fn folder_name(i: int) -> Seq<char> {
    if i == 0 {
        "MonoBleedingEdge"@
    } else if i == 1 {
        "Mono"@
    } else if i == 2 {
        "MonoBleedingEdge.x64"@
    } else {
        "MonoBleedingEdge.x86"@
    }
}

pub open spec fn stem_name(i: int) -> Seq<char> {
    if i == 0 {
        "libmono"@
    } else if i == 1 {
        "mono"@
    } else if i == 2 {
        "mono-2.0-bdwgc"@
    } else if i == 3 {
        "mono-2.0-sgen"@
    } else if i == 4 {
        "mono-2.0-boehm"@
    } else {
        "libmonobdwgc-2.0"@
    }
}

/// The subfolder of each place, if any.
pub open spec fn place_subdir(place: int) -> Option<Seq<char>> {
    if place == 1 || place == 4 {
        Some("EmbedRuntime"@)
    } else if place == 3 {
        Some("x86_64"@)
    } else {
        None
    }
}

/// The runtime folders, in the order they are tried.
pub fn runtime_folder(i: usize) -> (r: &'static str)
    requires
        i < FOLDER_COUNT,
    ensures
        r@ == folder_name(i as int),
{
    if i == 0 {
        "MonoBleedingEdge"
    } else if i == 1 {
        "Mono"
    } else if i == 2 {
        "MonoBleedingEdge.x64"
    } else {
        "MonoBleedingEdge.x86"
    }
}

/// The library names without extension, in the order they are tried.
pub fn runtime_stem(i: usize) -> (r: &'static str)
    requires
        i < STEM_COUNT,
    ensures
        r@ == stem_name(i as int),
{
    if i == 0 {
        "libmono"
    } else if i == 1 {
        "mono"
    } else if i == 2 {
        "mono-2.0-bdwgc"
    } else if i == 3 {
        "mono-2.0-sgen"
    } else if i == 4 {
        "mono-2.0-boehm"
    } else {
        "libmonobdwgc-2.0"
    }
}

/// The legacy runtime is the one whose library is called `libmono` or `mono`.
pub open spec fn is_old_stem(stem_index: int) -> bool {
    stem_index == 0 || stem_index == 1
}

/// The root of each place, in the order the places are tried for one
/// folder and library name.
pub open spec fn place_root(place: int) -> Root {
    if place < 2 {
        Root::Base
    } else {
        Root::Data
    }
}

/// Candidate `i` is tried as folder `i / 30`, library name `(i / 5) % 6` and
/// place `i % 5`: folders outermost, places innermost.
pub fn mono_candidate(i: usize) -> (c: LibCandidate)
    requires
        i < MONO_CANDIDATE_COUNT,
    ensures
        c.root == place_root(i as int % 5),
        c.folder@ == folder_name(i as int / 30),
        c.stem@ == stem_name((i as int / 5) % 6),
        match c.subdir {
            Some(d) => place_subdir(i as int % 5) == Some(d@),
            None => place_subdir(i as int % 5) is None,
        },
{
    let folder = runtime_folder(i / 30);
    let stem = runtime_stem((i / 5) % 6);
    let place = i % 5;
    if place == 0 {
        LibCandidate { root: Root::Base, folder, subdir: None, stem }
    } else if place == 1 {
        LibCandidate { root: Root::Base, folder, subdir: Some("EmbedRuntime"), stem }
    } else if place == 2 {
        LibCandidate { root: Root::Data, folder, subdir: None, stem }
    } else if place == 3 {
        LibCandidate { root: Root::Data, folder, subdir: Some("x86_64"), stem }
    } else {
        LibCandidate { root: Root::Data, folder, subdir: Some("EmbedRuntime"), stem }
    }
}

impl LibCandidate {
    /// The library's file name for the platform's library extension.
    pub fn file_name(&self, extension: &str) -> (r: String)
        ensures
            r@ == self.stem@ + "."@ + extension@,
    {
        String::from_str(self.stem).concat(".").concat(extension)
    }
}

/// The first candidate that exists, given for each candidate whether it does.
pub fn find_mono(present: &Vec<bool>) -> (r: Result<usize, PathError>)
    ensures
        match r {
            Ok(i) => i < present@.len() && present@[i as int] && forall|j: int| 0 <= j < i ==> !present@[j],
            Err(e) => e == PathError::MonoNotFound && forall|j: int| 0 <= j < present@.len() ==> !present@[j],
        },
{
    let mut i: usize = 0;
    while i < present.len()
        invariant
            i <= present@.len(),
            forall|j: int| 0 <= j < i ==> !present@[j],
        decreases present@.len() - i,
    {
        if present[i] {
            return Ok(i);
        }
        i = i + 1;
    }
    Err(PathError::MonoNotFound)
}

/// The backend to load: the first existing dynamic-JIT candidate if there
/// is one (tried first), else the ahead-of-time backend if its library
/// exists, else `BackendNotFound`.
pub fn locate_backend(present: &Vec<bool>, game_assembly_exists: bool) -> (r: Result<(Backend, Option<usize>), PathError>)
    requires
        present@.len() == MONO_CANDIDATE_COUNT,
    ensures
        match r {
            Ok((Backend::Mono { is_old }, Some(i))) => {
                &&& i < MONO_CANDIDATE_COUNT
                &&& present@[i as int]
                &&& forall|j: int| 0 <= j < i ==> !present@[j]
                &&& is_old == is_old_stem((i as int / 5) % 6)
            },
            Ok((Backend::Il2Cpp, None)) => game_assembly_exists && forall|j: int|
                0 <= j < present@.len() ==> !present@[j],
            Err(e) => e == PathError::BackendNotFound && !game_assembly_exists && forall|j: int|
                0 <= j < present@.len() ==> !present@[j],
            _ => false,
        },
{
    match find_mono(present) {
        Ok(i) => {
            let stem = (i / 5) % 6;
            Ok((Backend::Mono { is_old: stem == 0 || stem == 1 }, Some(i)))
        },
        Err(_) => if game_assembly_exists {
            Ok((Backend::Il2Cpp, None))
        } else {
            Err(PathError::BackendNotFound)
        },
    }
}

/// No-host no-op: when the data folder holds none of the marker files, the
/// host is reported unsupported and start-up makes no interceptor, so no hook is
/// ever attached.
pub proof fn lemma_no_host_no_op(layout: HostLayout)
    requires
        forall|i: int| 0 <= i < layout.markers@.len() ==> !layout.markers@[i],
    ensures
        !spec_is_unity(layout),
{
}

} // verus!
