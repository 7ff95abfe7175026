//! One compile call: marshaling its inputs, and composing its result from
//! what the native compiler handed back. The native call itself and the
//! writing of the output file are the caller's part.

use crate::blob::{artifact_of, extract_artifact, owned_view, read_blob, Blob};
use crate::compile_flags::CompileFlags;
use crate::effect_compile_flags::EffectCompileFlags;
use crate::encode::{
    is_c_string, is_wide_c_string, os_ascii, os_wide, string_to_os_ascii,
    string_to_os_wide_string, StringToOSAsciiError,
};
use crate::macros::{
    convert_macros, macro_array, macro_array_of, macro_ref_views, os_macro_views, os_macros,
    sentinel, MacroRef, OsShaderMacro, ShaderMacro,
};
use vstd::prelude::*;

verus! {

/// The inputs of a compile call in the encodings of the native layer. It owns
/// every buffer that the call reads.
#[derive(Debug, Clone, PartialEq, Eq)]
pub struct MarshaledInputs {
    pub file_name: Vec<u16>,
    pub defines: Vec<OsShaderMacro>,
    pub entry_point: Vec<u8>,
    pub target: Vec<u8>,
    pub compile_flags: u32,
    pub effect_compile_flags: u32,
}

/// What a `MarshaledInputs` holds.
pub ghost struct MarshaledModel {
    pub file_name: Seq<u16>,
    pub defines: Seq<(Seq<u8>, Seq<u8>)>,
    pub entry_point: Seq<u8>,
    pub target: Seq<u8>,
    pub compile_flags: u32,
    pub effect_compile_flags: u32,
}

impl View for MarshaledInputs {
    type V = MarshaledModel;

    open spec fn view(&self) -> MarshaledModel {
        MarshaledModel {
            file_name: self.file_name@,
            defines: os_macro_views(self.defines@),
            entry_point: self.entry_point@,
            target: self.target@,
            compile_flags: self.compile_flags,
            effect_compile_flags: self.effect_compile_flags,
        }
    }
}

impl MarshaledInputs {
    /// Every buffer is a well-formed native string.
    pub open spec fn wf(&self) -> bool {
        &&& is_wide_c_string(self.file_name@)
        &&& is_c_string(self.entry_point@)
        &&& is_c_string(self.target@)
        &&& forall|i: int| 0 <= i < self.defines.len() ==> (#[trigger] self.defines[i]).wf()
    }
}

/// The macros of a call: an absent list stands for no macros.
pub open spec fn defines_of(defines: Option<Vec<ShaderMacro>>) -> Seq<ShaderMacro> {
    match defines {
        Some(macros) => macros@,
        None => Seq::empty(),
    }
}

/// The result of marshaling the inputs of a call. The path is encoded first,
/// then the entry point, the target profile and the macros; the first failure
/// is the result.
pub open spec fn marshaled(
    file_name: Seq<char>,
    defines: Seq<ShaderMacro>,
    entry_point: Seq<char>,
    target: Seq<char>,
    compile_flags: u32,
    effect_compile_flags: u32,
) -> Result<MarshaledModel, StringToOSAsciiError> {
    match os_wide(file_name) {
        Err(e) => Err(e),
        Ok(os_file_name) => match os_ascii(entry_point) {
            Err(e) => Err(e),
            Ok(os_entry_point) => match os_ascii(target) {
                Err(e) => Err(e),
                Ok(os_target) => match os_macros(defines) {
                    Err(e) => Err(e),
                    Ok(os_defines) => Ok(
                        MarshaledModel {
                            file_name: os_file_name,
                            defines: os_defines,
                            entry_point: os_entry_point,
                            target: os_target,
                            compile_flags,
                            effect_compile_flags,
                        },
                    ),
                },
            },
        },
    }
}

/// Marshals the inputs of a compile call. Any string that cannot be encoded
/// ends the work with its error, before anything is handed to the native
/// layer.
pub fn marshal_inputs(
    file_name: String,
    defines: Option<Vec<ShaderMacro>>,
    entry_point: String,
    target: String,
    compile_flags: CompileFlags,
    effect_compile_flags: EffectCompileFlags,
) -> (r: Result<MarshaledInputs, StringToOSAsciiError>)
    ensures
        match marshaled(
            file_name@,
            defines_of(defines),
            entry_point@,
            target@,
            compile_flags@,
            effect_compile_flags@,
        ) {
            Ok(m) => r matches Ok(inputs) && inputs@ == m && inputs.wf(),
            Err(e) => r == Err::<MarshaledInputs, StringToOSAsciiError>(e),
        },
{
    let os_file_name = match string_to_os_wide_string(file_name) {
        Ok(units) => units,
        Err(e) => { return Err(e); },
    };
    let os_entry_point = match string_to_os_ascii(entry_point) {
        Ok(bytes) => bytes,
        Err(e) => { return Err(e); },
    };
    let os_target = match string_to_os_ascii(target) {
        Ok(bytes) => bytes,
        Err(e) => { return Err(e); },
    };
    let os_defines = match defines {
        Some(macros) => match convert_macros(macros) {
            Ok(os_macros) => os_macros,
            Err(e) => { return Err(e); },
        },
        None => Vec::new(),
    };
    proof {
        crate::encode::lemma_os_ascii_round_trip(entry_point@);
        crate::encode::lemma_os_ascii_round_trip(target@);
        assert(defines is None ==> os_macro_views(os_defines@) =~= Seq::empty());
    }
    Ok(
        MarshaledInputs {
            file_name: os_file_name,
            defines: os_defines,
            entry_point: os_entry_point,
            target: os_target,
            compile_flags: compile_flags.bits(),
            effect_compile_flags: effect_compile_flags.bits(),
        },
    )
}

/// The arguments of the native call: references into a `MarshaledInputs`,
/// which therefore stays alive and unmoved while they are in use.
#[derive(Debug, Clone, PartialEq, Eq)]
pub struct NativeCall<'a> {
    pub file_name: &'a [u16],
    /// The macro array, absent where there are no macros.
    pub defines: Option<Vec<MacroRef<'a>>>,
    pub entry_point: &'a [u8],
    pub target: &'a [u8],
    pub flags1: u32,
    pub flags2: u32,
}

/// What a `NativeCall` refers to.
pub ghost struct NativeCallModel {
    pub file_name: Seq<u16>,
    pub defines: Option<Seq<(Option<Seq<u8>>, Option<Seq<u8>>)>>,
    pub entry_point: Seq<u8>,
    pub target: Seq<u8>,
    pub flags1: u32,
    pub flags2: u32,
}

impl<'a> View for NativeCall<'a> {
    type V = NativeCallModel;

    open spec fn view(&self) -> NativeCallModel {
        NativeCallModel {
            file_name: self.file_name@,
            defines: match self.defines {
                Some(array) => Some(macro_ref_views(array@)),
                None => None,
            },
            entry_point: self.entry_point@,
            target: self.target@,
            flags1: self.flags1,
            flags2: self.flags2,
        }
    }
}

/// The arguments that marshaled inputs give: every buffer as it is, the
/// macros as a terminated array, or as no array where there are none.
pub open spec fn native_call_of(m: MarshaledModel) -> NativeCallModel {
    NativeCallModel {
        file_name: m.file_name,
        defines: if m.defines.len() == 0 {
            None
        } else {
            Some(macro_array_of(m.defines))
        },
        entry_point: m.entry_point,
        target: m.target,
        flags1: m.compile_flags,
        flags2: m.effect_compile_flags,
    }
}

impl MarshaledInputs {
    /// The arguments of the native call. With no macros the array is absent;
    /// with `n` macros it has `n + 1` entries, the last one the terminator.
    pub fn native_call<'a>(&'a self) -> (call: NativeCall<'a>)
        ensures
            call@ == native_call_of(self@),
            call.defines is None <==> self.defines.len() == 0,
            call.defines matches Some(array) ==> array.len() == self.defines.len() + 1
                && array[self.defines.len() as int]@ == sentinel(),
    {
        let defines = if self.defines.len() == 0 {
            assert(os_macro_views(self.defines@).len() == 0);
            None
        } else {
            Some(macro_array(&self.defines))
        };
        NativeCall {
            file_name: self.file_name.as_slice(),
            defines,
            entry_point: self.entry_point.as_slice(),
            target: self.target.as_slice(),
            flags1: self.compile_flags,
            flags2: self.effect_compile_flags,
        }
    }
}

/// An empty list of macros gives the native call that no list gives: the
/// same buffers and no macro array.
pub proof fn lemma_no_macros_is_no_array(
    file_name: Seq<char>,
    defines: Option<Vec<ShaderMacro>>,
    entry_point: Seq<char>,
    target: Seq<char>,
    compile_flags: u32,
    effect_compile_flags: u32,
)
    requires
        defines matches Some(list) ==> list@.len() == 0,
    ensures
        marshaled(
            file_name,
            defines_of(defines),
            entry_point,
            target,
            compile_flags,
            effect_compile_flags,
        ) == marshaled(
            file_name,
            defines_of(None),
            entry_point,
            target,
            compile_flags,
            effect_compile_flags,
        ),
        marshaled(
            file_name,
            defines_of(defines),
            entry_point,
            target,
            compile_flags,
            effect_compile_flags,
        ) matches Ok(m) ==> native_call_of(m).defines is None,
{
    assert(defines_of(defines) =~= defines_of(None));
}

/// A list of `n > 0` macros that can be encoded gives an array of `n + 1`
/// entries: a reference to each macro's two buffers, in order, and the
/// terminator last.
pub proof fn lemma_macro_array_shape(
    file_name: Seq<char>,
    defines: Seq<ShaderMacro>,
    entry_point: Seq<char>,
    target: Seq<char>,
    compile_flags: u32,
    effect_compile_flags: u32,
)
    requires
        defines.len() > 0,
        marshaled(file_name, defines, entry_point, target, compile_flags, effect_compile_flags)
            is Ok,
    ensures
        ({
            let m = marshaled(
                file_name,
                defines,
                entry_point,
                target,
                compile_flags,
                effect_compile_flags,
            )->Ok_0;
            &&& native_call_of(m).defines matches Some(array)
            &&& array.len() == defines.len() + 1
            &&& array.last() == sentinel()
            &&& forall|i: int|
                0 <= i < defines.len() ==> os_ascii(defines[i].name@) == Ok::<
                    Seq<u8>,
                    StringToOSAsciiError,
                >(#[trigger] array[i].0->Some_0) && os_ascii(defines[i].definition@) == Ok::<
                    Seq<u8>,
                    StringToOSAsciiError,
                >(array[i].1->Some_0) && array[i].0 is Some && array[i].1 is Some
        }),
{
    crate::macros::lemma_os_macros_ok(defines);
}

/// Why a compile call gave no bytecode. `E` is the native layer's error.
#[derive(Debug, Clone, PartialEq, Eq)]
pub enum CompileError<E> {
    /// An input could not be encoded; the native compiler was not called.
    Marshal(StringToOSAsciiError),
    /// The native compiler reported failure.
    Native(E),
}

/// Why compiling to a file failed. `E` is the native layer's error, `I` the
/// file system's.
#[derive(Debug, Clone, PartialEq, Eq)]
pub enum CompileFromFileToFileError<E, I> {
    /// No bytecode was produced.
    Compile(CompileError<E>),
    /// The bytecode could not be written.
    IO(I),
}

/// What to do after marshaling.
#[derive(Debug)]
pub enum CompileStep<E> {
    /// Make the native call, once, with the arguments of these inputs, and
    /// hand what it gave to `finish_compile`.
    Invoke(MarshaledInputs),
    /// The call is over: this is its result.
    Done(Result<Vec<u8>, CompileError<E>>, Option<Vec<u8>>),
}

/// Starts a compile call: marshals its inputs and says what comes next.
///
/// If every input can be encoded, the native call is due with exactly the
/// marshaled inputs. If one cannot, the call is over with that error and no
/// diagnostics, and the native compiler is not to be called.
pub fn begin_compile<E>(
    file_name: String,
    defines: Option<Vec<ShaderMacro>>,
    entry_point: String,
    target: String,
    compile_flags: CompileFlags,
    effect_compile_flags: EffectCompileFlags,
) -> (step: CompileStep<E>)
    ensures
        match marshaled(
            file_name@,
            defines_of(defines),
            entry_point@,
            target@,
            compile_flags@,
            effect_compile_flags@,
        ) {
            Ok(m) => step matches CompileStep::Invoke(inputs) && inputs@ == m && inputs.wf(),
            Err(e) => step == CompileStep::<E>::Done(Err(CompileError::Marshal(e)), None),
        },
{
    match marshal_inputs(
        file_name,
        defines,
        entry_point,
        target,
        compile_flags,
        effect_compile_flags,
    ) {
        Ok(inputs) => CompileStep::Invoke(inputs),
        Err(e) => CompileStep::Done(Err(CompileError::Marshal(e)), None),
    }
}

/// The bytecode of a call that succeeded: the bytes behind the code slot's
/// handle, none if the slot was left empty.
pub open spec fn bytecode_of(code: Option<Blob>) -> Seq<u8> {
    match code {
        Some(blob) => blob@,
        None => Seq::empty(),
    }
}

/// Ends a compile call: composes its result from what the native compiler
/// handed back, copying both output buffers into owned memory.
///
/// The diagnostics are extracted whether the call succeeded or not, and are
/// absent exactly if the compiler left their slot empty. On failure the
/// outcome is the compiler's error; on success it is the bytecode.
pub fn finish_compile<E>(
    result: Result<(), E>,
    code: Option<Blob>,
    error_messages: Option<Blob>,
) -> (r: (Result<Vec<u8>, CompileError<E>>, Option<Vec<u8>>))
    ensures
        owned_view(r.1) == artifact_of(error_messages),
        match result {
            Ok(_) => r.0 matches Ok(bytecode) && bytecode@ == bytecode_of(code),
            Err(e) => r.0 == Err::<Vec<u8>, CompileError<E>>(CompileError::Native(e)),
        },
{
    let messages = extract_artifact(error_messages);
    match result {
        Err(e) => (Err(CompileError::Native(e)), messages),
        Ok(_) => {
            let bytecode = match code {
                Some(blob) => read_blob(blob),
                None => Vec::new(),
            };
            (Ok(bytecode), messages)
        },
    }
}

/// What to do after compiling, where the bytecode goes to a file.
#[derive(Debug)]
pub enum FileOutputStep<E, I> {
    /// Write these bytes to the output file, replacing what it held, and hand
    /// the outcome to `finish_file_output` with these diagnostics.
    Write { bytecode: Vec<u8>, messages: Option<Vec<u8>> },
    /// The call is over: this is its result.
    Done(Result<(), CompileFromFileToFileError<E, I>>, Option<Vec<u8>>),
}

/// Takes the result of a compile call towards the output file. Bytecode is
/// to be written as it is; a failed compile ends the call with its error,
/// and nothing is written. The diagnostics pass through unchanged.
pub fn begin_file_output<E, I>(
    compiled: Result<Vec<u8>, CompileError<E>>,
    messages: Option<Vec<u8>>,
) -> (step: FileOutputStep<E, I>)
    ensures
        match compiled {
            Ok(bytecode) => step == (FileOutputStep::<E, I>::Write { bytecode, messages }),
            Err(e) => step == FileOutputStep::<E, I>::Done(
                Err(CompileFromFileToFileError::Compile(e)),
                messages,
            ),
        },
{
    match compiled {
        Ok(bytecode) => FileOutputStep::Write { bytecode, messages },
        Err(e) => FileOutputStep::Done(Err(CompileFromFileToFileError::Compile(e)), messages),
    }
}

/// Ends a compile-to-file call with the outcome of the write. The diagnostics
/// of the compile step pass through unchanged, whatever the outcome.
pub fn finish_file_output<E, I>(written: Result<(), I>, messages: Option<Vec<u8>>) -> (r: (
    Result<(), CompileFromFileToFileError<E, I>>,
    Option<Vec<u8>>,
))
    ensures
        r.1 == messages,
        match written {
            Ok(_) => r.0 is Ok,
            Err(e) => r.0 == Err::<(), CompileFromFileToFileError<E, I>>(
                CompileFromFileToFileError::IO(e),
            ),
        },
{
    match written {
        Ok(_) => (Ok(()), messages),
        Err(e) => (Err(CompileFromFileToFileError::IO(e)), messages),
    }
}

} // verus!
