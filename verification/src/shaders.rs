//! Shaders: which kind of shader a source file holds, judged by its
//! extension, and which pipeline stage runs it.
use vstd::prelude::*;
use crate::descriptors::{SHADER_STAGE_COMPUTE, SHADER_STAGE_FRAGMENT, SHADER_STAGE_VERTEX};
use crate::text::{chars_eq, chars_of, push_all, rfind_char_before, rsplit_once_char, rsplit_once_char_exec, split, split_exec};

verus! {

/// The kind of shader that the compiler is asked to compile.
#[derive(Clone, Copy, PartialEq, Eq, Structural, Debug)]
pub enum ShaderKind {
    Vertex,
    Fragment,
    Compute,
}

/// The last component of a path that names a file or directory: the last
/// `/`-separated piece that is neither empty nor `.`, unless it is `..`.
pub open spec fn last_component_from(pieces: Seq<Seq<char>>, end: int) -> Option<Seq<char>>
    decreases end,
{
    if end <= 0 || end > pieces.len() {
        None
    } else if pieces[end - 1].len() == 0 || pieces[end - 1] == seq!['.'] {
        last_component_from(pieces, end - 1)
    } else if pieces[end - 1] == seq!['.', '.'] {
        None
    } else {
        Some(pieces[end - 1])
    }
}

/// The file name of a path.
pub open spec fn file_name(path: Seq<char>) -> Option<Seq<char>> {
    let pieces = split(path, seq!['/']);
    last_component_from(pieces, pieces.len() as int)
}

/// The extension of a file name: what follows its last `.`, unless there
/// is none or the only `.` opens the name.
pub open spec fn name_extension(name: Seq<char>) -> Option<Seq<char>> {
    match rfind_char_before(name, '.', name.len() as int) {
        None => None,
        Some(i) => if i == 0 {
            None
        } else {
            Some(name.subrange(i + 1, name.len() as int))
        },
    }
}

/// The extension of the file that a path names.
pub open spec fn path_extension(path: Seq<char>) -> Option<Seq<char>> {
    match file_name(path) {
        Some(name) => name_extension(name),
        None => None,
    }
}

/// Where shader sources live.
pub open spec fn shaders_folder() -> Seq<char> {
    "src/shaders/"@
}

/// The first word of every SPIR-V module.
pub const SPIRV_MAGIC: u32 = 0x07230203;

/// A compiled shader starts with the SPIR-V magic number.
pub fn is_spirv_binary(words: &[u32]) -> (b: bool)
    ensures
        b == (words@.len() > 0 && words@[0] == SPIRV_MAGIC),
{
    words.len() > 0 && words[0] == SPIRV_MAGIC
}

/// The path of the shader source `file_name`.
pub fn shader_file_path(file_name: &str) -> (path: String)
    ensures
        path@ == shaders_folder() + file_name@,
{
    let mut path = String::from_str("src/shaders/");
    proof {
        reveal_strlit("src/shaders/");
    }
    path.append(file_name);
    path
}

/// The kind of shader for an extension.
pub open spec fn kind_for_extension(ext: Seq<char>) -> Option<ShaderKind> {
    if ext == "vert"@ {
        Some(ShaderKind::Vertex)
    } else if ext == "frag"@ {
        Some(ShaderKind::Fragment)
    } else if ext == "comp"@ {
        Some(ShaderKind::Compute)
    } else {
        None
    }
}

/// The kind of the shader in `file_name`, within the shaders folder.
pub open spec fn shader_kind_spec(file_name: Seq<char>) -> Option<ShaderKind> {
    match path_extension(shaders_folder() + file_name) {
        Some(ext) => kind_for_extension(ext),
        None => None,
    }
}

/// The extension of the file that a path names.
fn path_extension_exec(path: &Vec<char>) -> (ext: Option<Vec<char>>)
    ensures
        match ext {
            Some(e) => path_extension(path@) == Some(e@),
            None => path_extension(path@) is None,
        },
{
    let slash = vec!['/'];
    proof {
        assert(slash@ =~= seq!['/']);
    }
    let pieces = split_exec(path, &slash);
    let ghost ps = split(path@, seq!['/']);
    let mut end = pieces.len();
    let dot = vec!['.'];
    let dots = vec!['.', '.'];
    proof {
        assert(dot@ =~= seq!['.']);
        assert(dots@ =~= seq!['.', '.']);
    }
    while end > 0
        invariant
            end <= pieces.len(),
            pieces.len() == ps.len(),
            forall|k: int| 0 <= k < ps.len() ==> #[trigger] pieces[k]@ == ps[k],
            dot@ == seq!['.'],
            dots@ == seq!['.', '.'],
            ps == split(path@, seq!['/']),
            last_component_from(ps, end as int) == last_component_from(ps, ps.len() as int),
        decreases end,
    {
        proof {
            assert(pieces[end - 1]@ == ps[end - 1]);
        }
        let piece = &pieces[end - 1];
        if piece.len() == 0 || chars_eq(piece, &dot) {
            end -= 1;
        } else if chars_eq(piece, &dots) {
            return None;
        } else {
            return match rsplit_once_char_exec(piece, '.') {
                None => None,
                Some((before, after)) => {
                    proof {
                        crate::text::lemma_rfind_char_bounds(piece@, '.', piece@.len() as int);
                    }
                    if before.len() == 0 {
                        None
                    } else {
                        Some(after)
                    }
                },
            };
        }
    }
    None
}

/// The kind of shader that a source file holds, by its extension: `vert`,
/// `frag` or `comp`.
pub fn shader_kind_from_file_name(file_name: &str) -> (kind: ShaderKind)
    requires
        shader_kind_spec(file_name@) is Some,
    ensures
        Some(kind) == shader_kind_spec(file_name@),
{
    try_shader_kind_from_file_name(file_name).unwrap()
}

/// The kind of shader that a source file holds, where its extension names
/// one.
pub fn try_shader_kind_from_file_name(file_name: &str) -> (kind: Option<ShaderKind>)
    ensures
        kind == shader_kind_spec(file_name@),
{
    let mut path = chars_of("src/shaders/");
    push_all(&mut path, &chars_of(file_name));
    match path_extension_exec(&path) {
        None => None,
        Some(ext) => {
            if chars_eq(&ext, &chars_of("vert")) {
                Some(ShaderKind::Vertex)
            } else if chars_eq(&ext, &chars_of("frag")) {
                Some(ShaderKind::Fragment)
            } else if chars_eq(&ext, &chars_of("comp")) {
                Some(ShaderKind::Compute)
            } else {
                None
            }
        },
    }
}

/// The pipeline stage that runs a shader of this kind.
pub fn shader_stage(kind: ShaderKind) -> (stage: u32)
    ensures
        stage == match kind {
            ShaderKind::Vertex => SHADER_STAGE_VERTEX,
            ShaderKind::Fragment => SHADER_STAGE_FRAGMENT,
            ShaderKind::Compute => SHADER_STAGE_COMPUTE,
        },
{
    match kind {
        ShaderKind::Vertex => SHADER_STAGE_VERTEX,
        ShaderKind::Fragment => SHADER_STAGE_FRAGMENT,
        ShaderKind::Compute => SHADER_STAGE_COMPUTE,
    }
}

} // verus!
