//! The decisions around a call of the DirectX shader compiler (DXC).
//!
//! DXC itself is a native library reached through COM interfaces; the calls
//! into it live with the program. What is decided here: the command line that
//! a compilation passes, how it is encoded, and what to do after each step of
//! the COM protocol given the status codes that the step returned.

use vstd::prelude::*;
use vstd::std_specs::iter::IteratorSpec;

verus! {

/// A COM status code: negative values report failure.
pub type HRESULT = i32;

/// The status code of success.
pub const S_OK: HRESULT = 0;

/// Output kind of a DXC result: the compiled object.
pub const DXC_OUT_OBJECT: u32 = 0;

/// Output kind of a DXC result: the error text.
pub const DXC_OUT_ERRORS: u32 = 1;

/// A COM class or interface identifier.
#[derive(Clone, Copy, Debug, PartialEq, Eq)]
pub struct Guid {
    pub data1: u32,
    pub data2: u16,
    pub data3: u16,
    pub data4: [u8; 8],
}

/// Whether a status code reports success.
pub fn succeeded(hr: HRESULT) -> (r: bool)
    ensures
        r == (hr >= 0),
{
    hr >= 0
}

/// The UTF-16 code units of one character.
pub open spec fn utf16_units(c: char) -> Seq<u16> {
    let v = c as u32;
    if v < 0x10000 {
        seq![v as u16]
    } else {
        let u = v - 0x10000;
        seq![(0xD800 + u / 0x400) as u16, (0xDC00 + u % 0x400) as u16]
    }
}

/// The UTF-16 encoding of a character sequence.
pub open spec fn utf16_encode(s: Seq<char>) -> Seq<u16>
    decreases s.len(),
{
    if s.len() == 0 {
        Seq::empty()
    } else {
        utf16_encode(s.drop_last()) + utf16_units(s.last())
    }
}

/// The UTF-16 encoding of a character sequence followed by a NUL unit.
pub open spec fn wide_text(s: Seq<char>) -> Seq<u16> {
    utf16_encode(s).push(0u16)
}

/// A text whose characters all lie below U+10000 encodes to one code unit
/// per character, equal to the character's number.
pub proof fn lemma_utf16_encode_bmp(s: Seq<char>)
    requires
        forall|i: int| 0 <= i < s.len() ==> (#[trigger] s[i] as u32) < 0x10000,
    ensures
        utf16_encode(s) == s.map_values(|c: char| (c as u32) as u16),
    decreases s.len(),
{
    if s.len() > 0 {
        let prev = s.drop_last();
        assert forall|i: int| 0 <= i < prev.len() implies (#[trigger] prev[i] as u32) < 0x10000 by {
            assert(prev[i] == s[i]);
        }
        lemma_utf16_encode_bmp(prev);
        assert(utf16_encode(s) =~= s.map_values(|c: char| (c as u32) as u16));
    } else {
        assert(utf16_encode(s) =~= s.map_values(|c: char| (c as u32) as u16));
    }
}

/// Encodes `value` as a NUL-terminated UTF-16 string, the form in which DXC
/// takes its arguments.
pub fn wide(value: &str) -> (r: Vec<u16>)
    ensures
        r@ == wide_text(value@),
{
    let mut out: Vec<u16> = Vec::new();
    let ghost chars = value@;
    let mut iter = value.chars();
    let ghost mut done: int = 0;
    proof {
        broadcast use vstd::string::axiom_spec_iter;
    }
    assert(iter.remaining() == chars);
    loop
        invariant
            0 <= done <= chars.len(),
            iter.remaining() == chars.skip(done),
            out@ == utf16_encode(chars.take(done)),
        ensures
            out@ == utf16_encode(chars),
        decreases chars.len() - done,
    {
        match iter.next() {
            Some(c) => {
                assert(c == chars[done]);
                let ghost before = out@;
                let v = c as u32;
                proof {
                    vstd::utf8::char_is_scalar(c);
                }
                if v < 0x10000 {
                    out.push(v as u16);
                } else {
                    let u = v - 0x10000;
                    out.push((0xD800 + u / 0x400) as u16);
                    out.push((0xDC00 + u % 0x400) as u16);
                }
                assert(out@ =~= before + utf16_units(c));
                proof {
                    assert(chars.take(done + 1).drop_last() =~= chars.take(done));
                    assert(chars.skip(done).drop_first() =~= chars.skip(done + 1));
                    done = done + 1;
                }
            },
            None => {
                assert(chars.take(done) =~= chars);
                break ;
            },
        }
    }
    out.push(0);
    out
}


/// The DXC command line for one compilation, as text: the target profile (a
/// library when `compile_library`, else a pixel or vertex shader), HLSL 2021,
/// all resources bound; for SPIR-V the SPIR-V options, with the Y axis
/// flipped for vertex shaders; for DXIL the warning and reflection options;
/// and last, stripped debug information.
pub open spec fn compile_argument_text(
    compile_pixel_shader: bool,
    compile_library: bool,
    compile_spirv: bool,
) -> Seq<Seq<char>> {
    let target = if compile_library {
        "-T lib_6_3"@
    } else if compile_pixel_shader {
        "-T ps_6_0"@
    } else {
        "-T vs_6_0"@
    };
    let output = if compile_spirv {
        if compile_pixel_shader {
            seq!["-spirv"@, "-fvk-use-dx-layout"@]
        } else {
            seq!["-spirv"@, "-fvk-use-dx-layout"@, "-fvk-invert-y"@]
        }
    } else {
        seq!["-Wno-ignored-attributes"@, "-Qstrip_reflect"@]
    };
    seq![target, "-HV 2021"@, "-all-resources-bound"@] + output + seq!["-Qstrip_debug"@]
}

/// The command line of a compilation: the first argument names the target
/// (a library, else a pixel or vertex shader); DXIL compilations of every
/// stage pass exactly HLSL 2021, all resources bound, the ignored-attribute
/// warning switch, reflection stripping and debug stripping; SPIR-V ones pass
/// HLSL 2021, all resources bound, the SPIR-V switches and debug stripping.
/// The Y flip is passed exactly for SPIR-V vertex shaders, the DXIL-only
/// switches exactly for DXIL, and debug stripping always comes last.
pub proof fn lemma_compile_argument_text(
    compile_pixel_shader: bool,
    compile_library: bool,
    compile_spirv: bool,
)
    ensures
        ({
            let text = compile_argument_text(compile_pixel_shader, compile_library, compile_spirv);
            &&& compile_library ==> text[0] == "-T lib_6_3"@
            &&& !compile_library && compile_pixel_shader ==> text[0] == "-T ps_6_0"@
            &&& !compile_library && !compile_pixel_shader ==> text[0] == "-T vs_6_0"@
            &&& !compile_spirv ==> text.len() == 6 && text.subrange(1, 6) == seq![
                "-HV 2021"@,
                "-all-resources-bound"@,
                "-Wno-ignored-attributes"@,
                "-Qstrip_reflect"@,
                "-Qstrip_debug"@,
            ]
            &&& compile_spirv && compile_pixel_shader ==> text.len() == 6 && text.subrange(1, 6)
                == seq![
                "-HV 2021"@,
                "-all-resources-bound"@,
                "-spirv"@,
                "-fvk-use-dx-layout"@,
                "-Qstrip_debug"@,
            ]
            &&& compile_spirv && !compile_pixel_shader ==> text.len() == 7 && text.subrange(1, 7)
                == seq![
                "-HV 2021"@,
                "-all-resources-bound"@,
                "-spirv"@,
                "-fvk-use-dx-layout"@,
                "-fvk-invert-y"@,
                "-Qstrip_debug"@,
            ]
            &&& text.contains("-fvk-invert-y"@) <==> compile_spirv && !compile_pixel_shader
            &&& text.contains("-Wno-ignored-attributes"@) <==> !compile_spirv
            &&& text.contains("-Qstrip_reflect"@) <==> !compile_spirv
            &&& text.contains("-spirv"@) <==> compile_spirv
            &&& text.last() == "-Qstrip_debug"@
        }),
{
    reveal_strlit("-T lib_6_3");
    reveal_strlit("-T ps_6_0");
    reveal_strlit("-T vs_6_0");
    reveal_strlit("-HV 2021");
    reveal_strlit("-all-resources-bound");
    reveal_strlit("-spirv");
    reveal_strlit("-fvk-use-dx-layout");
    reveal_strlit("-fvk-invert-y");
    reveal_strlit("-Wno-ignored-attributes");
    reveal_strlit("-Qstrip_reflect");
    reveal_strlit("-Qstrip_debug");
    let text = compile_argument_text(compile_pixel_shader, compile_library, compile_spirv);
    let target = text[0];
    assert(target == "-T lib_6_3"@ || target == "-T ps_6_0"@ || target == "-T vs_6_0"@);
    assert("-T lib_6_3"@.len() == 10);
    assert("-T ps_6_0"@.len() == 9);
    assert("-T vs_6_0"@.len() == 9);
    assert("-HV 2021"@.len() == 8);
    assert("-all-resources-bound"@.len() == 20);
    assert("-spirv"@.len() == 6);
    assert("-fvk-use-dx-layout"@.len() == 18);
    assert("-fvk-invert-y"@.len() == 13);
    assert("-Wno-ignored-attributes"@.len() == 23);
    assert("-Qstrip_reflect"@.len() == 15);
    assert("-Qstrip_debug"@.len() == 13);
    assert("-Qstrip_debug"@[1] != "-fvk-invert-y"@[1]);
    assert(target.len() == 9 || target.len() == 10);
    let invert = "-fvk-invert-y"@;
    let wno = "-Wno-ignored-attributes"@;
    let reflect = "-Qstrip_reflect"@;
    let spirv = "-spirv"@;
    if !compile_spirv {
        assert(text =~= seq![target, "-HV 2021"@, "-all-resources-bound"@, "-Wno-ignored-attributes"@,
            "-Qstrip_reflect"@, "-Qstrip_debug"@]);
        assert(text.subrange(1, 6) =~= seq!["-HV 2021"@, "-all-resources-bound"@,
            "-Wno-ignored-attributes"@, "-Qstrip_reflect"@, "-Qstrip_debug"@]);
        assert(text[3] == wno);
        assert(text[4] == reflect);
        assert forall|i: int| 0 <= i < text.len() implies text[i] != invert && text[i] != spirv by {
            assert(0 <= i < 6);
            if i == 0 {
            } else if i == 1 {
            } else if i == 2 {
            } else if i == 3 {
            } else if i == 4 {
            } else {
                assert(text[i][1] != invert[1]);
            }
        }
    } else if compile_pixel_shader {
        assert(text =~= seq![target, "-HV 2021"@, "-all-resources-bound"@, "-spirv"@,
            "-fvk-use-dx-layout"@, "-Qstrip_debug"@]);
        assert(text.subrange(1, 6) =~= seq!["-HV 2021"@, "-all-resources-bound"@, "-spirv"@,
            "-fvk-use-dx-layout"@, "-Qstrip_debug"@]);
        assert(text[3] == spirv);
        assert forall|i: int| 0 <= i < text.len() implies text[i] != invert && text[i] != wno
            && text[i] != reflect by {
            assert(0 <= i < 6);
            if i == 0 {
            } else if i == 1 {
            } else if i == 2 {
            } else if i == 3 {
            } else if i == 4 {
            } else {
                assert(text[i][1] != invert[1]);
            }
        }
    } else {
        assert(text =~= seq![target, "-HV 2021"@, "-all-resources-bound"@, "-spirv"@,
            "-fvk-use-dx-layout"@, "-fvk-invert-y"@, "-Qstrip_debug"@]);
        assert(text.subrange(1, 7) =~= seq!["-HV 2021"@, "-all-resources-bound"@, "-spirv"@,
            "-fvk-use-dx-layout"@, "-fvk-invert-y"@, "-Qstrip_debug"@]);
        assert(text[3] == spirv);
        assert(text[5] == invert);
        assert forall|i: int| 0 <= i < text.len() implies text[i] != wno && text[i] != reflect by {
            assert(0 <= i < 7);
            if i == 0 {
            } else if i == 1 {
            } else if i == 2 {
            } else if i == 3 {
            } else if i == 4 {
            } else if i == 5 {
            } else {
            }
        }
    }
}

/// Appends the wide form of `text` to `args`.
fn push_wide(args: &mut Vec<Vec<u16>>, text: &str)
    ensures
        final(args)@.len() == old(args)@.len() + 1,
        forall|i: int| 0 <= i < old(args)@.len() ==> #[trigger] final(args)@[i] == old(args)@[i],
        final(args)@[old(args)@.len() as int]@ == wide_text(text@),
{
    args.push(wide(text));
}

/// The arguments, each NUL-terminated UTF-16, that a DXC compilation passes;
/// `None` when a library is asked for as SPIR-V, which DXC does not produce.
pub fn compile_arguments(
    compile_pixel_shader: bool,
    compile_library: bool,
    compile_spirv: bool,
) -> (r: Option<Vec<Vec<u16>>>)
    ensures
        r is None <==> compile_library && compile_spirv,
        r matches Some(args) ==> {
            let text = compile_argument_text(compile_pixel_shader, compile_library, compile_spirv);
            &&& args@.len() == text.len()
            &&& forall|i: int| 0 <= i < text.len() ==> #[trigger] args@[i]@ == wide_text(text[i])
        },
{
    if compile_library && compile_spirv {
        return None;
    }
    let target = if compile_library {
        "-T lib_6_3"
    } else if compile_pixel_shader {
        "-T ps_6_0"
    } else {
        "-T vs_6_0"
    };
    let mut args: Vec<Vec<u16>> = Vec::new();
    let ghost mut text: Seq<Seq<char>> = Seq::empty();
    push_wide(&mut args, target);
    proof { text = text.push(target@); }
    push_wide(&mut args, "-HV 2021");
    proof { text = text.push("-HV 2021"@); }
    push_wide(&mut args, "-all-resources-bound");
    proof { text = text.push("-all-resources-bound"@); }
    if compile_spirv {
        push_wide(&mut args, "-spirv");
        proof { text = text.push("-spirv"@); }
        push_wide(&mut args, "-fvk-use-dx-layout");
        proof { text = text.push("-fvk-use-dx-layout"@); }
        if !compile_pixel_shader {
            push_wide(&mut args, "-fvk-invert-y");
            proof { text = text.push("-fvk-invert-y"@); }
        }
    } else {
        push_wide(&mut args, "-Wno-ignored-attributes");
        proof { text = text.push("-Wno-ignored-attributes"@); }
        push_wide(&mut args, "-Qstrip_reflect");
        proof { text = text.push("-Qstrip_reflect"@); }
    }
    push_wide(&mut args, "-Qstrip_debug");
    proof { text = text.push("-Qstrip_debug"@); }
    assert(text =~= compile_argument_text(compile_pixel_shader, compile_library, compile_spirv));
    Some(args)
}

/// What a step of a DXC compilation reported.
#[derive(Clone, Copy, Debug, PartialEq, Eq, Structural)]
pub enum CompileEvent {
    /// The compile call returned `hr`; `has_result` tells whether it handed
    /// out a result object.
    Compiled { hr: HRESULT, has_result: bool },
    /// Asking the result for its status returned `hr`, and the status `status`.
    StatusRead { hr: HRESULT, status: HRESULT },
    /// Asking the result for the compiled object returned `hr`; `has_object`
    /// tells whether it handed out an object.
    ObjectRead { hr: HRESULT, has_object: bool },
}

/// What to do next in a DXC compilation.
#[derive(Clone, Copy, Debug, PartialEq, Eq, Structural)]
pub enum CompileAction {
    /// Give up; there is no result object to release.
    Abandon,
    /// Ask the result object for its status.
    ReadStatus,
    /// Release the result object and give up.
    ReleaseAndFail,
    /// Print the compiler's error text if it has any, release the result
    /// object and give up.
    ReportErrorsAndFail,
    /// Ask the result object for the compiled object.
    ReadObject,
    /// Release the result object and return the compiled object.
    ReleaseAndReturnObject,
}

/// The step that follows `event`: a failed or empty compile call is
/// abandoned; a status that cannot be read fails; a compilation that failed
/// reports its errors; a successful one has its object read; and the object
/// is returned only when reading it succeeded and produced one.
pub open spec fn next_action(event: CompileEvent) -> CompileAction {
    match event {
        CompileEvent::Compiled { hr, has_result } => {
            if hr < 0 || !has_result {
                CompileAction::Abandon
            } else {
                CompileAction::ReadStatus
            }
        },
        CompileEvent::StatusRead { hr, status } => {
            if hr < 0 {
                CompileAction::ReleaseAndFail
            } else if status < 0 {
                CompileAction::ReportErrorsAndFail
            } else {
                CompileAction::ReadObject
            }
        },
        CompileEvent::ObjectRead { hr, has_object } => {
            if hr >= 0 && has_object {
                CompileAction::ReleaseAndReturnObject
            } else {
                CompileAction::ReleaseAndFail
            }
        },
    }
}

/// Decides the next step of a DXC compilation from what the last one reported.
pub fn compile_step(event: CompileEvent) -> (a: CompileAction)
    ensures
        a == next_action(event),
{
    match event {
        CompileEvent::Compiled { hr, has_result } => {
            if !succeeded(hr) || !has_result {
                CompileAction::Abandon
            } else {
                CompileAction::ReadStatus
            }
        },
        CompileEvent::StatusRead { hr, status } => {
            if !succeeded(hr) {
                CompileAction::ReleaseAndFail
            } else if !succeeded(status) {
                CompileAction::ReportErrorsAndFail
            } else {
                CompileAction::ReadObject
            }
        },
        CompileEvent::ObjectRead { hr, has_object } => {
            if succeeded(hr) && has_object {
                CompileAction::ReleaseAndReturnObject
            } else {
                CompileAction::ReleaseAndFail
            }
        },
    }
}

/// What each report leads to, in terms of the status codes: a compile call
/// that succeeded and gave a result has its status read, otherwise it is
/// abandoned; a status that was read and reports success has its object
/// read, one that reports failure has its errors reported, and one that could
/// not be read fails; an object that was read has it returned, otherwise the
/// compilation fails.
pub proof fn lemma_compile_steps(
    hr: HRESULT,
    status: HRESULT,
    present: bool,
)
    ensures
        hr >= 0 && present ==> next_action(CompileEvent::Compiled { hr, has_result: present })
            == CompileAction::ReadStatus,
        !(hr >= 0 && present) ==> next_action(CompileEvent::Compiled { hr, has_result: present })
            == CompileAction::Abandon,
        hr >= 0 && status >= 0 ==> next_action(CompileEvent::StatusRead { hr, status })
            == CompileAction::ReadObject,
        hr >= 0 && status < 0 ==> next_action(CompileEvent::StatusRead { hr, status })
            == CompileAction::ReportErrorsAndFail,
        hr < 0 ==> next_action(CompileEvent::StatusRead { hr, status })
            == CompileAction::ReleaseAndFail,
        hr >= 0 && present ==> next_action(CompileEvent::ObjectRead { hr, has_object: present })
            == CompileAction::ReleaseAndReturnObject,
        !(hr >= 0 && present) ==> next_action(CompileEvent::ObjectRead { hr, has_object: present })
            == CompileAction::ReleaseAndFail,
{
}

/// A compilation hands out an object only after every call along the way
/// succeeded: each step leads on only when its status codes report success,
/// and the object is returned only when reading it succeeded.
pub proof fn lemma_object_only_after_success(
    compile_hr: HRESULT,
    has_result: bool,
    status_hr: HRESULT,
    status: HRESULT,
    object_hr: HRESULT,
    has_object: bool,
)
    requires
        next_action(CompileEvent::Compiled { hr: compile_hr, has_result }) == CompileAction::ReadStatus,
        next_action(CompileEvent::StatusRead { hr: status_hr, status }) == CompileAction::ReadObject,
        next_action(CompileEvent::ObjectRead { hr: object_hr, has_object })
            == CompileAction::ReleaseAndReturnObject,
    ensures
        compile_hr >= 0 && has_result,
        status_hr >= 0 && status >= 0,
        object_hr >= 0 && has_object,
{
}

} // verus!
