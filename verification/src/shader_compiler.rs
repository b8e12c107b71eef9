//! Shader compilation: what the compiler is asked, and what follows from its
//! answer.
use vstd::prelude::*;
use crate::native;
use crate::native::CompileError;
use crate::shader::ShaderType;

verus! {

/// Compiled shader code, held by the device's compiler.
#[derive(Debug, PartialEq)]
pub struct ShaderCode {
    pub data: u64,
}

impl ShaderCode {
    /// Gives up the native code: the object to release, if the code still
    /// holds one. The code is empty afterwards.
    pub fn release(&mut self) -> (released: Option<u64>)
        ensures
            old(self).data != 0 ==> released == Some(old(self).data),
            old(self).data == 0 ==> released is None,
            final(self).data == 0,
    {
        native::take_handle(&mut self.data)
    }
}

/// A preprocessor define; one without a value is defined as empty.
#[derive(Debug, PartialEq)]
pub struct Define {
    pub name: String,
    pub value: Option<String>,
}

/// A define as text: its name, and its value if it has one.
pub type DefineText = (Seq<char>, Option<Seq<char>>);

/// The text of an optional string.
pub open spec fn text_of(s: Option<String>) -> Option<Seq<char>> {
    match s {
        Some(s) => Some(s@),
        None => None,
    }
}

impl Define {
    pub open spec fn text(self) -> DefineText {
        (self.name@, text_of(self.value))
    }
}

/// The texts of a list of defines, in order.
pub open spec fn texts(defines: Seq<Define>) -> Seq<DefineText> {
    defines.map_values(|d: Define| d.text())
}

/// The defines that reach the compiler: those with a name, in order. One
/// with a blank name stands for no define.
pub open spec fn named(defines: Seq<DefineText>) -> Seq<DefineText>
    decreases defines.len(),
{
    if defines.len() == 0 {
        Seq::empty()
    } else if defines.last().0.len() == 0 {
        named(defines.drop_last())
    } else {
        named(defines.drop_last()).push(defines.last())
    }
}

/// What the compiler is asked: the source file, the defines, the entry
/// point and the stage, whose profile it compiles for. Includes are resolved
/// relative to the source file.
#[derive(Debug, PartialEq)]
pub struct CompileRequest {
    pub path: String,
    pub defines: Vec<Define>,
    pub entry_point: String,
    pub profile: ShaderType,
    pub flags: u32,
}

/// What the compiler answered: its status, the code and the error output it
/// handed out (null where it handed out none), and the error output as text
/// where it is text.
#[derive(Debug, PartialEq)]
pub struct CompileReply {
    pub status: i32,
    pub code: u64,
    pub errors: u64,
    pub diagnostics: Option<String>,
}

impl CompileReply {
    /// The objects that are released once the answer has been read: always
    /// the error output, and the code too where compilation failed.
    pub open spec fn released(self) -> Seq<u64> {
        let errors = if self.errors != 0 {
            seq![self.errors]
        } else {
            Seq::empty()
        };
        if self.status != native::S_OK && self.code != 0 {
            errors.push(self.code)
        } else {
            errors
        }
    }

    /// The diagnostic text of the answer; empty where there is none.
    pub open spec fn diagnostic_text(self) -> Seq<char> {
        match self.diagnostics {
            Some(text) => text@,
            None => Seq::empty(),
        }
    }
}

/// The abstract state of a shader compiler.
pub struct CompilerState {
    pub path: Seq<char>,
    pub defines: Seq<DefineText>,
}

/// Utility used to compile shaders from a source file.
#[derive(Debug, PartialEq)]
pub struct ShaderCompiler {
    path: String,
    defines: Vec<Define>,
}

impl View for ShaderCompiler {
    type V = CompilerState;

    closed spec fn view(&self) -> CompilerState {
        CompilerState { path: self.path@, defines: texts(self.defines@) }
    }
}

impl ShaderCompiler {
    /// Creates a new shader compiler to compile from file.
    pub fn from_file(path: &str) -> (c: ShaderCompiler)
        ensures
            c@ == (CompilerState { path: path@, defines: Seq::empty() }),
    {
        let c = ShaderCompiler { path: path.to_owned(), defines: Vec::new() };
        assert(texts(c.defines@) =~= Seq::<DefineText>::empty());
        c
    }

    /// Adds a define to the shader compilation.
    pub fn add_define(self, name: String, value: Option<String>) -> (c: ShaderCompiler)
        ensures
            c@ == (CompilerState {
                path: self@.path,
                defines: self@.defines.push((name@, text_of(value))),
            }),
    {
        let mut c = self;
        c.defines.push(Define { name, value });
        assert(texts(c.defines@) =~= texts(self.defines@).push((name@, text_of(value))));
        c
    }

    /// What to ask the compiler for one entry point: this compiler's file
    /// and its named defines, the stage, and the highest optimisation level.
    pub fn request(&self, entry_point: &str, profile: ShaderType) -> (r: CompileRequest)
        ensures
            r.path@ == self@.path,
            texts(r.defines@) == named(self@.defines),
            r.entry_point@ == entry_point@,
            r.profile == profile,
            r.flags == native::COMPILE_OPTIMIZATION_LEVEL3,
    {
        let mut defines: Vec<Define> = Vec::new();
        let mut i: usize = 0;
        assert(texts(self.defines@).take(0) =~= Seq::<DefineText>::empty());
        assert(texts(defines@) =~= Seq::<DefineText>::empty());
        while i < self.defines.len()
            invariant
                i <= self.defines@.len(),
                texts(defines@) == named(texts(self.defines@).take(i as int)),
            decreases self.defines@.len() - i,
        {
            let define = &self.defines[i];
            let ghost before = texts(self.defines@).take(i as int);
            let ghost after = texts(self.defines@).take(i + 1);
            assert(after.drop_last() =~= before);
            assert(after.last() == define.text());
            if !define.name.as_str().is_empty() {
                let value = match &define.value {
                    Some(value) => Some(value.clone()),
                    None => None,
                };
                let ghost kept = defines@;
                defines.push(Define { name: define.name.clone(), value });
                assert(texts(defines@) =~= texts(kept).push(define.text()));
            }
            i += 1;
        }
        assert(texts(self.defines@).take(i as int) =~= texts(self.defines@));
        CompileRequest {
            path: self.path.clone(),
            defines,
            entry_point: entry_point.to_owned(),
            profile,
            flags: native::COMPILE_OPTIMIZATION_LEVEL3,
        }
    }

    /// Reads the compiler's answer. Success gives the code; failure gives
    /// the status with the diagnostic text. Beside the result stand the
    /// objects to release, in order.
    pub fn compile(&self, reply: CompileReply) -> (out: (Result<ShaderCode, CompileError>, Vec<u64>))
        ensures
            out.1@ == reply.released(),
            reply.status == native::S_OK ==> out.0 == Ok::<ShaderCode, CompileError>(
                ShaderCode { data: reply.code },
            ),
            reply.status != native::S_OK ==> {
                &&& out.0 matches Err(e)
                &&& e.status == reply.status
                &&& e.diagnostics@ == reply.diagnostic_text()
            },
    {
        let mut released: Vec<u64> = Vec::new();
        if reply.errors != 0 {
            released.push(reply.errors);
        }
        if reply.status != native::S_OK {
            if reply.code != 0 {
                released.push(reply.code);
            }
            let diagnostics = match reply.diagnostics {
                Some(text) => text,
                None => String::new(),
            };
            assert(released@ =~= reply.released());
            (Err(CompileError { status: reply.status, diagnostics }), released)
        } else {
            assert(released@ =~= reply.released());
            (Ok(ShaderCode { data: reply.code }), released)
        }
    }
}

} // verus!
