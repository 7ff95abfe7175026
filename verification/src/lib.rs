//! Marshaling layer around a native shader-compiler entry point.
//!
//! The library turns strings and macro lists into the null-terminated ASCII
//! and UTF-16 buffers a native compiler expects, and turns the buffers the
//! compiler hands back into owned byte vectors. The native call itself and
//! all file access belong to the caller.

pub mod blob;
pub mod compile;
pub mod compile_flags;
pub mod effect_compile_flags;
pub mod encode;
pub mod macros;

pub use encode::{string_to_os_ascii, string_to_os_wide_string, StringToOSAsciiError};
pub use macros::{convert_macro, convert_macros, macro_array, MacroRef, OsShaderMacro, ShaderMacro};
pub use blob::{extract_artifact, read_blob, Blob};
pub use compile_flags::CompileFlags;
pub use effect_compile_flags::EffectCompileFlags;
pub use compile::{
    begin_compile, begin_file_output, finish_compile, finish_file_output, marshal_inputs,
    CompileError, CompileFromFileToFileError, CompileStep, FileOutputStep, MarshaledInputs,
    NativeCall,
};
