//! Shader sources: their kinds, the events that report changes to them, and
//! the sorting of the files of a shader folder by stage.
use crate::text::{chars_of, same_text};
use crate::types::{ShaderFlavour, ShaderType};
use std::path::PathBuf;
use vstd::prelude::*;
use vstd::string::*;

verus! {

/// The stage a shader source is compiled for.
#[derive(Debug, Copy, Clone, Hash, Eq, PartialEq, Structural)]
pub enum ShaderKind {
    Fragment,
    Vertex,
    Compute,
}

/// A shader source file and the stage it is compiled for.
#[derive(Debug, Clone, Hash, PartialEq, Eq)]
pub struct ShaderSource {
    pub path: PathBuf,
    pub kind: ShaderKind,
}

/// An event sent to the event loop: a GLSL file changed.
#[derive(Debug)]
pub enum UserEvent {
    Glsl { path: PathBuf },
}

/// The fragment shader of a render pipeline.
pub struct FragmentShaderDesc {
    pub shader_path: PathBuf,
}

/// What a changed shader source asks of a pipeline built from it.
#[derive(Debug, Clone, Copy, PartialEq, Eq, Structural)]
pub enum ReloadStep {
    /// Recompile the vertex stage of a render pipeline and relink it.
    VertexStage,
    /// Recompile the fragment stage of a render pipeline and relink it.
    FragmentStage,
    /// Rebuild the compute pipeline.
    ComputePipeline,
    /// A compute shader was handed to a render pipeline: an error.
    Misplaced,
}

/// The step a change of a `kind` shader asks of a render pipeline
/// (`render_pipeline`) or of a compute pipeline.
pub open spec fn spec_reload_step(render_pipeline: bool, kind: ShaderKind) -> ReloadStep {
    if !render_pipeline {
        ReloadStep::ComputePipeline
    } else {
        match kind {
            ShaderKind::Vertex => ReloadStep::VertexStage,
            ShaderKind::Fragment => ReloadStep::FragmentStage,
            ShaderKind::Compute => ReloadStep::Misplaced,
        }
    }
}

/// The step a change of a `kind` shader asks of a render pipeline
/// (`render_pipeline`) or of a compute pipeline.
pub fn reload_step(render_pipeline: bool, kind: ShaderKind) -> (step: ReloadStep)
    ensures
        step == spec_reload_step(render_pipeline, kind),
{
    if render_pipeline {
        match kind {
            ShaderKind::Vertex => ReloadStep::VertexStage,
            ShaderKind::Fragment => ReloadStep::FragmentStage,
            ShaderKind::Compute => ReloadStep::Misplaced,
        }
    } else {
        ReloadStep::ComputePipeline
    }
}

/// The `samples` count is one a multisampled texture can have: 1, 2, 4, 8
/// or 16.
pub fn unrolled_sample_count(sample_count: u32) -> (supported: bool)
    ensures
        supported == (sample_count == 1 || sample_count == 2 || sample_count == 4 || sample_count
            == 8 || sample_count == 16),
{
    match sample_count {
        1 | 2 | 4 | 8 | 16 => true,
        _ => false,
    }
}

/// `text` is the word `word`.
pub fn is_word(text: &str, word: &str) -> (same: bool)
    ensures
        same == (text@ == word@),
{
    let a = chars_of(text);
    let b = chars_of(word);
    if a.len() != b.len() {
        return false;
    }
    let mut i: usize = 0;
    while i < a.len()
        invariant
            a@ == text@,
            b@ == word@,
            a@.len() == b@.len(),
            i <= a@.len(),
            forall|j: int| 0 <= j < i ==> a@[j] == b@[j],
        decreases a@.len() - i,
    {
        if a[i] != b[i] {
            return false;
        }
        i += 1;
    }
    assert(a@ =~= b@);
    true
}

/// `text` holds `word` somewhere.
pub open spec fn contains_word(text: Seq<char>, word: Seq<char>) -> bool {
    exists|i: int| 0 <= i && i + word.len() <= text.len() && #[trigger] text.subrange(i, i + word.len()) == word
}

/// `text` holds `word` somewhere.
pub fn str_contains(text: &str, word: &str) -> (found: bool)
    ensures
        found == contains_word(text@, word@),
{
    let a = chars_of(text);
    let b = chars_of(word);
    if b.len() > a.len() {
        return false;
    }
    let mut i: usize = 0;
    while i <= a.len() - b.len()
        invariant
            a@ == text@,
            b@ == word@,
            b@.len() <= a@.len(),
            i <= a@.len() - b@.len() + 1,
            forall|k: int| 0 <= k < i ==> #[trigger] text@.subrange(k, k + word@.len()) != word@,
        decreases a@.len() - i,
    {
        let mut j: usize = 0;
        let mut same = true;
        while j < b.len()
            invariant
                a@ == text@,
                b@ == word@,
                i + b@.len() <= a@.len(),
                a@.len() <= usize::MAX,
                j <= b@.len(),
                same == forall|m: int| 0 <= m < j ==> a@[i + m] == b@[m],
            decreases b@.len() - j,
        {
            if a[i + j] != b[j] {
                same = false;
            }
            j += 1;
        }
        if same {
            assert(text@.subrange(i as int, i + word@.len()) =~= word@);
            return true;
        }
        assert(text@.subrange(i as int, i + word@.len()) != word@) by {
            let m = choose|m: int| 0 <= m < b@.len() && a@[i + m] != b@[m];
            assert(text@.subrange(i as int, i + word@.len())[m] != word@[m]);
        }
        i += 1;
    }
    assert(!contains_word(text@, word@)) by {
        if contains_word(text@, word@) {
            let k = choose|k: int| 0 <= k && k + word@.len() <= text@.len() && #[trigger] text@.subrange(k, k + word@.len()) == word@;
            assert(text@.subrange(k, k + word@.len()) != word@);
        }
    }
    false
}

/// The source language a file extension names: `wgsl`, GLSL (`glsl`,
/// `frag`, `comp`, `vert`), or none.
pub open spec fn flavour_of_extension(extension: Option<Seq<char>>) -> Option<ShaderFlavour> {
    match extension {
        Some(e) => if e == "wgsl"@ {
            Some(ShaderFlavour::Wgsl)
        } else if e == "glsl"@ || e == "frag"@ || e == "comp"@ || e == "vert"@ {
            Some(ShaderFlavour::Glsl)
        } else {
            None
        },
        None => None,
    }
}

/// The source language a file extension names.
pub fn flavour_from_extension(extension: Option<&str>) -> (flavour: Option<ShaderFlavour>)
    ensures
        flavour == flavour_of_extension(
            match extension {
                Some(e) => Some(e@),
                None => None,
            },
        ),
{
    match extension {
        Some(e) => {
            if is_word(e, "wgsl") {
                Some(ShaderFlavour::Wgsl)
            } else if is_word(e, "glsl") || is_word(e, "frag") || is_word(e, "comp") || is_word(
                e,
                "vert",
            ) {
                Some(ShaderFlavour::Glsl)
            } else {
                None
            }
        },
        None => None,
    }
}

/// The parser a file extension calls for: WGSL for `wgsl`, GLSL for `glsl`,
/// `frag`, `vert` and `comp`, SPIR-V for `spv`, none for any other.
pub open spec fn source_type_of_extension(extension: Option<Seq<char>>) -> Option<ShaderType> {
    match extension {
        Some(e) => if e == "wgsl"@ {
            Some(ShaderType::Wgsl)
        } else if e == "glsl"@ || e == "frag"@ || e == "vert"@ || e == "comp"@ {
            Some(ShaderType::Glsl)
        } else if e == "spv"@ {
            Some(ShaderType::Spir)
        } else {
            None
        },
        None => None,
    }
}

/// The parser a file extension calls for.
pub fn source_type_from_extension(extension: Option<&str>) -> (source_type: Option<ShaderType>)
    ensures
        source_type == source_type_of_extension(
            match extension {
                Some(e) => Some(e@),
                None => None,
            },
        ),
{
    match extension {
        Some(e) => {
            if is_word(e, "wgsl") {
                Some(ShaderType::Wgsl)
            } else if is_word(e, "glsl") || is_word(e, "frag") || is_word(e, "vert") || is_word(
                e,
                "comp",
            ) {
                Some(ShaderType::Glsl)
            } else if is_word(e, "spv") {
                Some(ShaderType::Spir)
            } else {
                None
            }
        },
        None => None,
    }
}

/// Only the extensions `glsl`, `frag`, `comp` and `vert` name GLSL, only
/// `wgsl` names WGSL, and no extension at all names no language.
pub proof fn lemma_extension_flavours(extension: Seq<char>)
    ensures
        flavour_of_extension(Some(extension)) == Some(ShaderFlavour::Glsl) <==> (extension
            == seq!['g', 'l', 's', 'l'] || extension == seq!['f', 'r', 'a', 'g'] || extension
            == seq!['c', 'o', 'm', 'p'] || extension == seq!['v', 'e', 'r', 't']),
        flavour_of_extension(Some(extension)) == Some(ShaderFlavour::Wgsl) <==> extension
            == seq!['w', 'g', 's', 'l'],
        flavour_of_extension(None) is None,
{
    reveal_strlit("wgsl");
    reveal_strlit("glsl");
    reveal_strlit("frag");
    reveal_strlit("comp");
    reveal_strlit("vert");
    assert("wgsl"@ =~= seq!['w', 'g', 's', 'l']);
    assert("glsl"@ =~= seq!['g', 'l', 's', 'l']);
    assert("frag"@ =~= seq!['f', 'r', 'a', 'g']);
    assert("comp"@ =~= seq!['c', 'o', 'm', 'p']);
    assert("vert"@ =~= seq!['v', 'e', 'r', 't']);
}

/// Only the extensions `glsl`, `frag`, `vert` and `comp` go to the GLSL
/// parser, only `wgsl` to the WGSL parser and only `spv` to the SPIR-V
/// reader; no extension at all goes to none.
pub proof fn lemma_extension_parsers(extension: Seq<char>)
    ensures
        source_type_of_extension(Some(extension)) == Some(ShaderType::Glsl) <==> (extension
            == seq!['g', 'l', 's', 'l'] || extension == seq!['f', 'r', 'a', 'g'] || extension
            == seq!['c', 'o', 'm', 'p'] || extension == seq!['v', 'e', 'r', 't']),
        source_type_of_extension(Some(extension)) == Some(ShaderType::Wgsl) <==> extension
            == seq!['w', 'g', 's', 'l'],
        source_type_of_extension(Some(extension)) == Some(ShaderType::Spir) <==> extension
            == seq!['s', 'p', 'v'],
        source_type_of_extension(None) is None,
{
    reveal_strlit("wgsl");
    reveal_strlit("glsl");
    reveal_strlit("frag");
    reveal_strlit("comp");
    reveal_strlit("vert");
    reveal_strlit("spv");
    assert("wgsl"@ =~= seq!['w', 'g', 's', 'l']);
    assert("glsl"@ =~= seq!['g', 'l', 's', 'l']);
    assert("frag"@ =~= seq!['f', 'r', 'a', 'g']);
    assert("comp"@ =~= seq!['c', 'o', 'm', 'p']);
    assert("vert"@ =~= seq!['v', 'e', 'r', 't']);
    assert("spv"@ =~= seq!['s', 'p', 'v']);
}

/// Whether the shader compiler takes a file with extension `extension`:
/// it takes every file that has an extension.
pub fn is_supported(extension: Option<&str>) -> (supported: bool)
    ensures
        supported == extension.is_some(),
{
    extension.is_some()
}

/// A shader file of the shader folder and its source language.
#[derive(Debug, Clone)]
pub struct ShaderInfo {
    pub path: String,
    pub ty: ShaderFlavour,
}

/// A file of the shader folder that no stage took.
#[derive(Debug, Clone, Copy, PartialEq, Eq, Structural)]
pub enum Notice {
    /// The file is no shader source.
    Ignored(usize),
    /// The file is a shader source that no stage took.
    Rejected(usize),
}

/// The files of a shader folder sorted by stage.
#[derive(Debug)]
pub struct ShaderFolder {
    pub frag: Option<ShaderInfo>,
    pub comp: Option<ShaderInfo>,
    pub vert: Option<ShaderInfo>,
    pub glsl_prelude: Option<String>,
    pub notices: Vec<Notice>,
}

/// The texts and languages the sorting holds: fragment, compute and vertex
/// shader, prelude, and the notices.
pub ghost struct FolderView {
    pub frag: Option<(Seq<char>, ShaderFlavour)>,
    pub comp: Option<(Seq<char>, ShaderFlavour)>,
    pub vert: Option<(Seq<char>, ShaderFlavour)>,
    pub glsl_prelude: Option<Seq<char>>,
    pub notices: Seq<Notice>,
}

/// The text and language of a shader file.
pub open spec fn info_view(info: Option<ShaderInfo>) -> Option<(Seq<char>, ShaderFlavour)> {
    match info {
        Some(i) => Some((i.path@, i.ty)),
        None => None,
    }
}

impl ShaderFolder {
    /// The texts and languages the sorting holds.
    pub open spec fn view(&self) -> FolderView {
        FolderView {
            frag: info_view(self.frag),
            comp: info_view(self.comp),
            vert: info_view(self.vert),
            glsl_prelude: match self.glsl_prelude {
                Some(p) => Some(p@),
                None => None,
            },
            notices: self.notices@,
        }
    }
}

/// The sorting after file `i` with path `path` and extension `extension`: a
/// file with no shader extension is ignored; otherwise a path holding
/// `frag`, `comp` or `vert` fills that stage where it is still empty (in
/// that order of preference), one holding `prelude` becomes the prelude,
/// and any other is rejected.
pub open spec fn sort_step(
    folder: FolderView,
    i: int,
    path: Seq<char>,
    extension: Option<Seq<char>>,
) -> FolderView {
    match flavour_of_extension(extension) {
        None => FolderView { notices: folder.notices.push(Notice::Ignored(i as usize)), ..folder },
        Some(ty) => if contains_word(path, "frag"@) && folder.frag is None {
            FolderView { frag: Some((path, ty)), ..folder }
        } else if contains_word(path, "comp"@) && folder.comp is None {
            FolderView { comp: Some((path, ty)), ..folder }
        } else if contains_word(path, "vert"@) && folder.vert is None {
            FolderView { vert: Some((path, ty)), ..folder }
        } else if contains_word(path, "prelude"@) {
            FolderView { glsl_prelude: Some(path), ..folder }
        } else {
            FolderView { notices: folder.notices.push(Notice::Rejected(i as usize)), ..folder }
        },
    }
}

/// The extension of a file, as text.
pub open spec fn extension_view(extension: Option<String>) -> Option<Seq<char>> {
    match extension {
        Some(e) => Some(e@),
        None => None,
    }
}

/// The sorting of the first `k` files.
pub open spec fn sort_files(paths: Seq<String>, extensions: Seq<Option<String>>, k: int) -> FolderView
    decreases k,
{
    if k <= 0 {
        FolderView { frag: None, comp: None, vert: None, glsl_prelude: None, notices: Seq::empty() }
    } else {
        sort_step(
            sort_files(paths, extensions, k - 1),
            k - 1,
            paths[k - 1]@,
            extension_view(extensions[k - 1]),
        )
    }
}

/// Sorts the files of a shader folder, `paths[i]` with extension
/// `extensions[i]`, by stage, in order.
pub fn parse_folder(paths: &Vec<String>, extensions: &Vec<Option<String>>) -> (folder: ShaderFolder)
    requires
        paths@.len() == extensions@.len(),
    ensures
        folder.view() == sort_files(paths@, extensions@, paths@.len() as int),
{
    let mut folder = ShaderFolder { frag: None, comp: None, vert: None, glsl_prelude: None, notices: Vec::new() };
    let mut i: usize = 0;
    while i < paths.len()
        invariant
            paths@.len() == extensions@.len(),
            i <= paths@.len(),
            folder.view() == sort_files(paths@, extensions@, i as int),
        decreases paths@.len() - i,
    {
        let path = &paths[i];
        let extension: Option<&str> = match &extensions[i] {
            Some(e) => Some(e.as_str()),
            None => None,
        };
        match flavour_from_extension(extension) {
            None => {
                folder.notices.push(Notice::Ignored(i));
            },
            Some(ty) => {
                let file_name = path.as_str();
                if str_contains(file_name, "frag") && folder.frag.is_none() {
                    folder.frag = Some(ShaderInfo { path: path.clone(), ty });
                } else if str_contains(file_name, "comp") && folder.comp.is_none() {
                    folder.comp = Some(ShaderInfo { path: path.clone(), ty });
                } else if str_contains(file_name, "vert") && folder.vert.is_none() {
                    folder.vert = Some(ShaderInfo { path: path.clone(), ty });
                } else if str_contains(file_name, "prelude") {
                    folder.glsl_prelude = Some(path.clone());
                } else {
                    folder.notices.push(Notice::Rejected(i));
                }
            },
        }
        i += 1;
    }
    folder
}

/// A pipeline, found by the number its arena gave it.
#[derive(Debug, Clone, Copy, PartialEq, Eq, Structural)]
pub enum PipelineHandle {
    Render(u64),
    Compute(u64),
}

/// What a hot reload looks up: for each watched file, the shader sources
/// built from it (their path and stage); for each shader source path, the
/// pipelines built from it.
pub struct ReloadMappings {
    pub includes: Vec<(String, Vec<(String, ShaderKind)>)>,
    pub pipelines: Vec<(String, Vec<PipelineHandle>)>,
}

/// The value of the first entry of `entries` whose key is `key`.
pub open spec fn lookup<V>(entries: Seq<(String, V)>, key: Seq<char>) -> Option<V>
    decreases entries.len(),
{
    if entries.len() == 0 {
        None
    } else if entries[0].0@ == key {
        Some(entries[0].1)
    } else {
        lookup(entries.drop_first(), key)
    }
}

/// The reload step of each of `handles` for a changed `kind` shader.
pub open spec fn handle_steps(handles: Seq<PipelineHandle>, kind: ShaderKind) -> Seq<(PipelineHandle, ReloadStep)> {
    handles.map_values(|h: PipelineHandle| (h, spec_reload_step(h is Render, kind)))
}

/// Some step of `steps` is a misplaced shader.
pub open spec fn has_misplaced(steps: Seq<(PipelineHandle, ReloadStep)>) -> bool {
    exists|j: int| 0 <= j < steps.len() && #[trigger] steps[j].1 == ReloadStep::Misplaced
}

/// `steps` up to and including the first misplaced shader.
pub open spec fn until_misplaced(steps: Seq<(PipelineHandle, ReloadStep)>) -> Seq<(PipelineHandle, ReloadStep)>
    decreases steps.len(),
{
    if steps.len() == 0 {
        steps
    } else if steps[0].1 == ReloadStep::Misplaced {
        seq![steps[0]]
    } else {
        seq![steps[0]] + until_misplaced(steps.drop_first())
    }
}

/// The steps for the shader sources `sources[i..]`, in order: each source's
/// pipelines get the step its stage asks of them; the first misplaced
/// compute shader ends the reload; `None` where a source has no pipelines
/// recorded, on which the reload cannot go on.
pub open spec fn steps_from(
    pipelines: Seq<(String, Vec<PipelineHandle>)>,
    sources: Seq<(String, ShaderKind)>,
    i: int,
) -> Option<Seq<(PipelineHandle, ReloadStep)>>
    decreases sources.len() - i,
{
    if i < 0 || i >= sources.len() {
        Some(Seq::empty())
    } else {
        match lookup(pipelines, sources[i].0@) {
            None => None,
            Some(handles) => {
                let steps = handle_steps(handles@, sources[i].1);
                if has_misplaced(steps) {
                    Some(until_misplaced(steps))
                } else {
                    match steps_from(pipelines, sources, i + 1) {
                        None => None,
                        Some(rest) => Some(steps + rest),
                    }
                }
            },
        }
    }
}

/// The reload after `changed` changed: the steps for every shader source
/// built from it; `None` where the file or one of its sources is not
/// recorded.
pub open spec fn spec_reload_plan(mappings: ReloadMappings, changed: Seq<char>) -> Option<Seq<(PipelineHandle, ReloadStep)>> {
    match lookup(mappings.includes@, changed) {
        None => None,
        Some(sources) => steps_from(mappings.pipelines@, sources@, 0),
    }
}

/// Looking up past an entry with another key looks up in the rest.
proof fn lemma_lookup_step<V>(entries: Seq<(String, V)>, key: Seq<char>, i: int)
    requires
        0 <= i < entries.len(),
    ensures
        entries.skip(i).drop_first() == entries.skip(i + 1),
        lookup(entries.skip(i), key) == if entries[i].0@ == key {
            Some(entries[i].1)
        } else {
            lookup(entries.skip(i + 1), key)
        },
{
    assert(entries.skip(i).drop_first() =~= entries.skip(i + 1));
}

/// The index of the entry of `entries` that `lookup` finds for `key`.
fn find_entry<V>(entries: &Vec<(String, V)>, key: &str) -> (index: Option<usize>)
    ensures
        match index {
            Some(i) => {
                &&& i < entries@.len()
                &&& lookup(entries@, key@) == Some(entries@[i as int].1)
                &&& entries@[i as int].0@ == key@
                &&& forall|j: int| 0 <= j < i ==> entries@[j].0@ != key@
            },
            None => lookup(entries@, key@) is None,
        },
{
    let mut i: usize = 0;
    assert(entries@.skip(0) =~= entries@);
    while i < entries.len()
        invariant
            i <= entries@.len(),
            lookup(entries@, key@) == lookup(entries@.skip(i as int), key@),
            forall|j: int| 0 <= j < i ==> entries@[j].0@ != key@,
        decreases entries@.len() - i,
    {
        proof {
            lemma_lookup_step(entries@, key@, i as int);
        }
        if same_text(entries[i].0.as_str(), key) {
            return Some(i);
        }
        i += 1;
    }
    assert(entries@.skip(i as int).len() == 0);
    None
}

/// The first misplaced step ends the steps kept.
proof fn lemma_until_misplaced(steps: Seq<(PipelineHandle, ReloadStep)>, j: int)
    requires
        0 <= j < steps.len(),
        steps[j].1 == ReloadStep::Misplaced,
        forall|k: int| 0 <= k < j ==> steps[k].1 != ReloadStep::Misplaced,
    ensures
        until_misplaced(steps) == steps.take(j + 1),
    decreases j,
{
    if j > 0 {
        let rest = steps.drop_first();
        assert forall|k: int| 0 <= k < j - 1 implies rest[k].1 != ReloadStep::Misplaced by {
            assert(rest[k] == steps[k + 1]);
        }
        lemma_until_misplaced(rest, j - 1);
        assert(seq![steps[0]] + rest.take(j) =~= steps.take(j + 1));
    } else {
        assert(seq![steps[0]] =~= steps.take(1));
    }
}

/// The steps of a hot reload after the file `changed` changed: for each
/// shader source built from it, in order, each pipeline built from that
/// source gets the step the source's stage asks of it; a compute shader in
/// a render pipeline is the last step, as the reload stops there with an
/// error. `None` where `changed`, or a source built from it, has no entry,
/// on which the reload cannot go on.
pub fn reload_plan(mappings: &ReloadMappings, changed: &str) -> (plan: Option<Vec<(PipelineHandle, ReloadStep)>>)
    ensures
        match plan {
            Some(steps) => spec_reload_plan(*mappings, changed@) == Some(steps@),
            None => spec_reload_plan(*mappings, changed@) is None,
        },
{
    let s = match find_entry(&mappings.includes, changed) {
        None => return None,
        Some(s) => s,
    };
    let sources = &mappings.includes[s].1;
    let ghost pipelines = mappings.pipelines@;
    let mut acc: Vec<(PipelineHandle, ReloadStep)> = Vec::new();
    let mut i: usize = 0;
    proof {
        match steps_from(pipelines, sources@, 0) {
            Some(r) => {
                assert(acc@ + r =~= r);
            },
            None => {},
        }
    }
    while i < sources.len()
        invariant
            pipelines == mappings.pipelines@,
            lookup(mappings.includes@, changed@) == Some(*sources),
            i <= sources@.len(),
            steps_from(pipelines, sources@, 0) == match steps_from(pipelines, sources@, i as int) {
                None => None,
                Some(rest) => Some(acc@ + rest),
            },
        decreases sources@.len() - i,
    {
        let kind = sources[i].1;
        let p = match find_entry(&mappings.pipelines, sources[i].0.as_str()) {
            None => return None,
            Some(p) => p,
        };
        let handles = &mappings.pipelines[p].1;
        let ghost all = handle_steps(handles@, kind);
        assert(lookup(pipelines, sources@[i as int].0@) == Some(*handles));
        let mut steps: Vec<(PipelineHandle, ReloadStep)> = Vec::new();
        let mut j: usize = 0;
        while j < handles.len()
            invariant
                pipelines == mappings.pipelines@,
                lookup(mappings.includes@, changed@) == Some(*sources),
                i < sources@.len(),
                kind == sources@[i as int].1,
                lookup(pipelines, sources@[i as int].0@) == Some(*handles),
                steps_from(pipelines, sources@, 0) == match steps_from(pipelines, sources@, i as int) {
                    None => None,
                    Some(rest) => Some(acc@ + rest),
                },
                all == handle_steps(handles@, kind),
                j <= handles@.len(),
                steps@ == all.take(j as int),
                forall|k: int| 0 <= k < j ==> all[k].1 != ReloadStep::Misplaced,
            decreases handles@.len() - j,
        {
            let h = handles[j];
            let render = match h {
                PipelineHandle::Render(_) => true,
                PipelineHandle::Compute(_) => false,
            };
            let step = reload_step(render, kind);
            assert(all[j as int] == (h, step));
            steps.push((h, step));
            assert(steps@ =~= all.take(j + 1));
            if step == ReloadStep::Misplaced {
                proof {
                    lemma_until_misplaced(all, j as int);
                    assert(all[j as int].1 == ReloadStep::Misplaced);
                    assert(has_misplaced(all));
                    assert(steps_from(pipelines, sources@, i as int) == Some(until_misplaced(all)));
                }
                let ghost before = acc@;
                acc.append(&mut steps);
                assert(acc@ == before + until_misplaced(all));
                return Some(acc);
            }
            j += 1;
        }
        proof {
            assert(steps@ =~= all);
            assert(!has_misplaced(all));
            assert(steps_from(pipelines, sources@, i as int) == match steps_from(pipelines, sources@, i + 1) {
                None => None,
                Some(rest) => Some(all + rest),
            });
            match steps_from(pipelines, sources@, i + 1) {
                Some(rest) => {
                    assert(acc@ + (all + rest) =~= (acc@ + all) + rest);
                },
                None => {},
            }
        }
        acc.append(&mut steps);
        i += 1;
    }
    proof {
        assert(acc@ + Seq::<(PipelineHandle, ReloadStep)>::empty() =~= acc@);
    }
    Some(acc)
}

/// The values held under `key` in `entries`, none where there is no entry.
pub open spec fn entry_values<V>(entries: Seq<(String, Vec<V>)>, key: Seq<char>) -> Seq<V> {
    match lookup(entries, key) {
        Some(values) => values@,
        None => Seq::empty(),
    }
}

/// The pipelines recorded for the shader source `path`.
pub open spec fn handles_for(mappings: ReloadMappings, path: Seq<char>) -> Seq<PipelineHandle> {
    entry_values(mappings.pipelines@, path)
}

/// The paths and stages of `sources`.
pub open spec fn views_of(sources: Seq<(String, ShaderKind)>) -> Seq<(Seq<char>, ShaderKind)> {
    sources.map_values(|e: (String, ShaderKind)| (e.0@, e.1))
}

/// The paths and stages of the sources held under `key` in `entries`.
pub open spec fn source_views(entries: Seq<(String, Vec<(String, ShaderKind)>)>, key: Seq<char>) -> Seq<(Seq<char>, ShaderKind)> {
    views_of(entry_values(entries, key))
}

/// The shader sources (path and stage) recorded for the watched file `path`.
pub open spec fn sources_for(mappings: ReloadMappings, path: Seq<char>) -> Seq<(Seq<char>, ShaderKind)> {
    source_views(mappings.includes@, path)
}

/// `values` with `value` added at the end unless it is there already.
pub open spec fn with_value<V>(values: Seq<V>, value: V) -> Seq<V> {
    if values.contains(value) {
        values
    } else {
        values.push(value)
    }
}

/// Replacing the value of the first entry for its key changes what that
/// key finds and nothing else.
proof fn lemma_lookup_update<V>(s: Seq<(String, V)>, p: int, e: (String, V), key: Seq<char>)
    requires
        0 <= p < s.len(),
        e.0@ == s[p].0@,
        forall|j: int| 0 <= j < p ==> s[j].0@ != s[p].0@,
    ensures
        lookup(s.update(p, e), key) == if key == s[p].0@ {
            Some(e.1)
        } else {
            lookup(s, key)
        },
    decreases p,
{
    if p == 0 {
        assert(s.update(0, e).drop_first() =~= s.drop_first());
    } else {
        assert(s.update(p, e).drop_first() =~= s.drop_first().update(p - 1, e));
        lemma_lookup_update(s.drop_first(), p - 1, e, key);
    }
}

/// An entry added at the end is found only where no earlier entry is.
proof fn lemma_lookup_push<V>(s: Seq<(String, V)>, e: (String, V), key: Seq<char>)
    ensures
        lookup(s.push(e), key) == match lookup(s, key) {
            Some(v) => Some(v),
            None => if e.0@ == key {
                Some(e.1)
            } else {
                None
            },
        },
    decreases s.len(),
{
    assert(s.push(e)[0] == if s.len() > 0 {
        s[0]
    } else {
        e
    });
    if s.len() > 0 {
        assert(s.push(e).drop_first() =~= s.drop_first().push(e));
        lemma_lookup_push(s.drop_first(), e, key);
    } else {
        assert(s.push(e).drop_first() =~= Seq::<(String, V)>::empty());
        assert(lookup(Seq::<(String, V)>::empty(), key) is None);
    }
}

/// `handles` holds `h`.
fn holds_handle(handles: &Vec<PipelineHandle>, h: PipelineHandle) -> (found: bool)
    ensures
        found == handles@.contains(h),
{
    let mut i: usize = 0;
    while i < handles.len()
        invariant
            i <= handles@.len(),
            forall|j: int| 0 <= j < i ==> handles@[j] != h,
        decreases handles@.len() - i,
    {
        if handles[i] == h {
            assert(handles@[i as int] == h);
            return true;
        }
        i += 1;
    }
    false
}

/// `sources` holds a source of path `path` and stage `kind`.
fn holds_source(sources: &Vec<(String, ShaderKind)>, path: &str, kind: ShaderKind) -> (found: bool)
    ensures
        found == views_of(sources@).contains((path@, kind)),
{
    let ghost views = views_of(sources@);
    let mut i: usize = 0;
    while i < sources.len()
        invariant
            views == views_of(sources@),
            i <= sources@.len(),
            forall|j: int| 0 <= j < i ==> views[j] != (path@, kind),
        decreases sources@.len() - i,
    {
        if sources[i].1 == kind && same_text(sources[i].0.as_str(), path) {
            assert(views[i as int] == (path@, kind));
            return true;
        }
        i += 1;
    }
    false
}

/// Records pipeline `h` under the shader source `key`.
fn insert_handle(entries: &mut Vec<(String, Vec<PipelineHandle>)>, key: String, h: PipelineHandle)
    ensures
        forall|k: Seq<char>|
            #[trigger] entry_values(final(entries)@, k) == if k == key@ {
                with_value(entry_values(old(entries)@, k), h)
            } else {
                entry_values(old(entries)@, k)
            },
{
    match find_entry(entries, key.as_str()) {
        Some(p) => {
            let ghost before = entries@;
            let (k, mut handles) = entries.remove(p);
            if !holds_handle(&handles, h) {
                handles.push(h);
            }
            entries.insert(p, (k, handles));
            proof {
                assert(entries@ =~= before.update(p as int, entries@[p as int]));
                assert forall|key2: Seq<char>|
                    #[trigger] entry_values(entries@, key2) == if key2 == key@ {
                        with_value(entry_values(before, key2), h)
                    } else {
                        entry_values(before, key2)
                    } by {
                    lemma_lookup_update(before, p as int, entries@[p as int], key2);
                }
            }
        },
        None => {
            let ghost before = entries@;
            let mut handles: Vec<PipelineHandle> = Vec::new();
            handles.push(h);
            let ghost pushed = handles@;
            entries.push((key, handles));
            proof {
                assert(pushed =~= Seq::<PipelineHandle>::empty().push(h));
                assert(!Seq::<PipelineHandle>::empty().contains(h));
                assert forall|key2: Seq<char>|
                    #[trigger] entry_values(entries@, key2) == if key2 == key@ {
                        with_value(entry_values(before, key2), h)
                    } else {
                        entry_values(before, key2)
                    } by {
                    lemma_lookup_push(before, entries@.last(), key2);
                    assert(entries@ =~= before.push(entries@.last()));
                }
            }
        },
    }
}

/// Records the shader source of path `path` and stage `kind` under the
/// watched file `key`.
fn insert_source(entries: &mut Vec<(String, Vec<(String, ShaderKind)>)>, key: String, path: String, kind: ShaderKind)
    ensures
        forall|k: Seq<char>|
            #[trigger] source_views(final(entries)@, k) == if k == key@ {
                with_value(source_views(old(entries)@, k), (path@, kind))
            } else {
                source_views(old(entries)@, k)
            },
{
    let ghost path_view = path@;
    match find_entry(entries, key.as_str()) {
        Some(p) => {
            let ghost before = entries@;
            let (k, mut sources) = entries.remove(p);
            let ghost old_sources = sources@;
            if !holds_source(&sources, path.as_str(), kind) {
                sources.push((path, kind));
                assert(views_of(sources@) =~= views_of(old_sources).push((path_view, kind)));
            }
            entries.insert(p, (k, sources));
            proof {
                assert(entries@ =~= before.update(p as int, entries@[p as int]));
                assert forall|key2: Seq<char>|
                    #[trigger] source_views(entries@, key2) == if key2 == key@ {
                        with_value(source_views(before, key2), (path_view, kind))
                    } else {
                        source_views(before, key2)
                    } by {
                    lemma_lookup_update(before, p as int, entries@[p as int], key2);
                }
            }
        },
        None => {
            let ghost before = entries@;
            let mut sources: Vec<(String, ShaderKind)> = Vec::new();
            sources.push((path, kind));
            let ghost pushed = sources@;
            entries.push((key, sources));
            proof {
                let empty = Seq::<(String, ShaderKind)>::empty();
                assert(views_of(pushed) =~= views_of(empty).push((path_view, kind)));
                assert(views_of(empty) =~= Seq::<(Seq<char>, ShaderKind)>::empty());
                assert(!Seq::<(Seq<char>, ShaderKind)>::empty().contains((path_view, kind)));
                assert forall|key2: Seq<char>|
                    #[trigger] source_views(entries@, key2) == if key2 == key@ {
                        with_value(source_views(before, key2), (path_view, kind))
                    } else {
                        source_views(before, key2)
                    } by {
                    lemma_lookup_push(before, entries@.last(), key2);
                    assert(entries@ =~= before.push(entries@.last()));
                }
            }
        },
    }
}

impl ReloadMappings {
    /// Mappings that record nothing.
    pub fn new() -> (mappings: Self)
        ensures
            mappings.includes@.len() == 0,
            mappings.pipelines@.len() == 0,
    {
        ReloadMappings { includes: Vec::new(), pipelines: Vec::new() }
    }

    /// Records a compute pipeline `handle` built from the shader at `path`:
    /// the file's sources gain the compute shader `path`, and the source's
    /// pipelines gain the handle; each only where it is not recorded yet.
    pub fn register_compute_pipeline(&mut self, path: String, handle: u64)
        ensures
            forall|k: Seq<char>|
                #[trigger] sources_for(*final(self), k) == if k == path@ {
                    with_value(sources_for(*old(self), k), (path@, ShaderKind::Compute))
                } else {
                    sources_for(*old(self), k)
                },
            forall|k: Seq<char>|
                #[trigger] handles_for(*final(self), k) == if k == path@ {
                    with_value(handles_for(*old(self), k), PipelineHandle::Compute(handle))
                } else {
                    handles_for(*old(self), k)
                },
    {
        insert_source(&mut self.includes, path.clone(), path.clone(), ShaderKind::Compute);
        insert_handle(&mut self.pipelines, path, PipelineHandle::Compute(handle));
    }

    /// Records a render pipeline `handle` built from the vertex shader at
    /// `vertex_path` and the fragment shader at `fragment_path`: each file's
    /// sources gain its shader with its stage, and each source's pipelines
    /// gain the handle; each only where it is not recorded yet, the vertex
    /// shader first.
    pub fn register_render_pipeline(&mut self, vertex_path: String, fragment_path: String, handle: u64)
        ensures
            forall|k: Seq<char>|
                #[trigger] sources_for(*final(self), k) == {
                    let after_vertex = if k == vertex_path@ {
                        with_value(sources_for(*old(self), k), (vertex_path@, ShaderKind::Vertex))
                    } else {
                        sources_for(*old(self), k)
                    };
                    if k == fragment_path@ {
                        with_value(after_vertex, (fragment_path@, ShaderKind::Fragment))
                    } else {
                        after_vertex
                    }
                },
            forall|k: Seq<char>|
                #[trigger] handles_for(*final(self), k) == {
                    let after_vertex = if k == vertex_path@ {
                        with_value(handles_for(*old(self), k), PipelineHandle::Render(handle))
                    } else {
                        handles_for(*old(self), k)
                    };
                    if k == fragment_path@ {
                        with_value(after_vertex, PipelineHandle::Render(handle))
                    } else {
                        after_vertex
                    }
                },
    {
        let ghost before = *self;
        insert_source(&mut self.includes, vertex_path.clone(), vertex_path.clone(), ShaderKind::Vertex);
        let ghost mid_includes = self.includes@;
        insert_source(&mut self.includes, fragment_path.clone(), fragment_path.clone(), ShaderKind::Fragment);
        insert_handle(&mut self.pipelines, vertex_path, PipelineHandle::Render(handle));
        let ghost mid_pipelines = self.pipelines@;
        insert_handle(&mut self.pipelines, fragment_path, PipelineHandle::Render(handle));
        proof {
            assert forall|k: Seq<char>| #[trigger] sources_for(*self, k) == {
                let after_vertex = if k == vertex_path@ {
                    with_value(sources_for(before, k), (vertex_path@, ShaderKind::Vertex))
                } else {
                    sources_for(before, k)
                };
                if k == fragment_path@ {
                    with_value(after_vertex, (fragment_path@, ShaderKind::Fragment))
                } else {
                    after_vertex
                }
            } by {
                assert(source_views(mid_includes, k) == if k == vertex_path@ {
                    with_value(sources_for(before, k), (vertex_path@, ShaderKind::Vertex))
                } else {
                    sources_for(before, k)
                });
            }
            assert forall|k: Seq<char>| #[trigger] handles_for(*self, k) == {
                let after_vertex = if k == vertex_path@ {
                    with_value(handles_for(before, k), PipelineHandle::Render(handle))
                } else {
                    handles_for(before, k)
                };
                if k == fragment_path@ {
                    with_value(after_vertex, PipelineHandle::Render(handle))
                } else {
                    after_vertex
                }
            } by {
                assert(entry_values(mid_pipelines, k) == if k == vertex_path@ {
                    with_value(handles_for(before, k), PipelineHandle::Render(handle))
                } else {
                    handles_for(before, k)
                });
            }
        }
    }
}

} // verus!
