//! Preprocessor macros: their encoded, owned form and the null-terminated
//! array of references that the native layer reads.

use crate::encode::{is_c_string, os_ascii, string_to_os_ascii, StringToOSAsciiError};
use vstd::prelude::*;

verus! {

/// A preprocessor macro as the caller writes it. Names need not be unique.
#[derive(Debug, Clone, PartialEq, Eq)]
pub struct ShaderMacro {
    pub name: String,
    pub definition: String,
}

/// A macro encoded for the native layer: two null-terminated ASCII buffers.
/// It owns the memory that the entries of a macro array refer to.
#[derive(Debug, Clone, PartialEq, Eq)]
pub struct OsShaderMacro {
    pub name: Vec<u8>,
    pub definition: Vec<u8>,
}

impl View for OsShaderMacro {
    type V = (Seq<u8>, Seq<u8>);

    open spec fn view(&self) -> (Seq<u8>, Seq<u8>) {
        (self.name@, self.definition@)
    }
}

impl OsShaderMacro {
    /// Both buffers are well-formed native strings.
    pub open spec fn wf(&self) -> bool {
        is_c_string(self.name@) && is_c_string(self.definition@)
    }
}

/// One entry of a macro array: a reference to a macro's two buffers, or the
/// terminator, in which both are absent. An entry borrows from the encoded
/// macro it refers to, so it cannot outlive it.
#[derive(Debug, Clone, Copy, PartialEq, Eq)]
pub struct MacroRef<'a> {
    pub name: Option<&'a [u8]>,
    pub definition: Option<&'a [u8]>,
}

impl<'a> View for MacroRef<'a> {
    type V = (Option<Seq<u8>>, Option<Seq<u8>>);

    open spec fn view(&self) -> (Option<Seq<u8>>, Option<Seq<u8>>) {
        (
            match self.name {
                Some(s) => Some(s@),
                None => None,
            },
            match self.definition {
                Some(s) => Some(s@),
                None => None,
            },
        )
    }
}

/// The entry that ends a macro array: both references absent.
pub open spec fn sentinel() -> (Option<Seq<u8>>, Option<Seq<u8>>) {
    (None, None)
}

/// The result of encoding one macro: the name is encoded first, so its error
/// comes first.
pub open spec fn os_macro(m: ShaderMacro) -> Result<(Seq<u8>, Seq<u8>), StringToOSAsciiError> {
    match os_ascii(m.name@) {
        Err(e) => Err(e),
        Ok(name) => match os_ascii(m.definition@) {
            Err(e) => Err(e),
            Ok(definition) => Ok((name, definition)),
        },
    }
}

/// The result of encoding a list of macros in order: every macro encoded, or
/// the error of the first one that cannot be.
pub open spec fn os_macros(ms: Seq<ShaderMacro>) -> Result<
    Seq<(Seq<u8>, Seq<u8>)>,
    StringToOSAsciiError,
>
    decreases ms.len(),
{
    if ms.len() == 0 {
        Ok(Seq::empty())
    } else {
        match os_macros(ms.drop_last()) {
            Err(e) => Err(e),
            Ok(front) => match os_macro(ms.last()) {
                Err(e) => Err(e),
                Ok(m) => Ok(front.push(m)),
            },
        }
    }
}

/// The views of a list of encoded macros.
pub open spec fn os_macro_views(os: Seq<OsShaderMacro>) -> Seq<(Seq<u8>, Seq<u8>)> {
    Seq::new(os.len(), |i: int| os[i]@)
}

/// The macro array for a list of encoded macros: one entry per macro, in
/// order, then the terminator.
pub open spec fn macro_array_of(os: Seq<(Seq<u8>, Seq<u8>)>) -> Seq<
    (Option<Seq<u8>>, Option<Seq<u8>>),
> {
    Seq::new(
        os.len() + 1,
        |i: int|
            if i < os.len() {
                (Some(os[i].0), Some(os[i].1))
            } else {
                sentinel()
            },
    )
}

/// The views of the entries of a macro array.
pub open spec fn macro_ref_views(array: Seq<MacroRef>) -> Seq<(Option<Seq<u8>>, Option<Seq<u8>>)> {
    Seq::new(array.len(), |i: int| array[i]@)
}

/// Encodes one macro: its name, then its definition.
pub fn convert_macro(shader_macro: ShaderMacro) -> (r: Result<OsShaderMacro, StringToOSAsciiError>)
    ensures
        match os_macro(shader_macro) {
            Ok(m) => r matches Ok(o) && o@ == m && o.wf(),
            Err(e) => r == Err::<OsShaderMacro, StringToOSAsciiError>(e),
        },
{
    let os_name = match string_to_os_ascii(shader_macro.name) {
        Ok(bytes) => bytes,
        Err(e) => { return Err(e); },
    };
    let os_definition = match string_to_os_ascii(shader_macro.definition) {
        Ok(bytes) => bytes,
        Err(e) => { return Err(e); },
    };
    proof {
        crate::encode::lemma_os_ascii_round_trip(shader_macro.name@);
        crate::encode::lemma_os_ascii_round_trip(shader_macro.definition@);
    }
    Ok(OsShaderMacro { name: os_name, definition: os_definition })
}

/// Encodes a list of macros in order, keeping every encoded buffer.
///
/// The first macro that cannot be encoded ends the work with its error, and
/// nothing of what was encoded before it is handed out.
pub fn convert_macros(macros: Vec<ShaderMacro>) -> (r: Result<
    Vec<OsShaderMacro>,
    StringToOSAsciiError,
>)
    ensures
        match os_macros(macros@) {
            Ok(ms) => r matches Ok(os) && os_macro_views(os@) == ms && os.len() == macros.len()
                && forall|i: int| 0 <= i < os.len() ==> (#[trigger] os[i]).wf(),
            Err(e) => r == Err::<Vec<OsShaderMacro>, StringToOSAsciiError>(e),
        },
{
    let mut os_macros_vec: Vec<OsShaderMacro> = Vec::with_capacity(macros.len());
    let ghost all = macros@;
    assert(all.take(0).len() == 0);
    assert(os_macro_views(os_macros_vec@) =~= Seq::empty());
    for shader_macro in it: macros.into_iter()
        invariant
            it.seq() == all,
            os_macros(all.take(it.index() as int)) == Ok::<
                Seq<(Seq<u8>, Seq<u8>)>,
                StringToOSAsciiError,
            >(os_macro_views(os_macros_vec@)),
            os_macros_vec.len() == it.index(),
            forall|i: int| 0 <= i < os_macros_vec.len() ==> (#[trigger] os_macros_vec[i]).wf(),
    {
        let ghost done = all.take(it.index() as int);
        let ghost next = all.take(it.index() as int + 1);
        let ghost before = os_macro_views(os_macros_vec@);
        assert(next.drop_last() =~= done);
        assert(next.last() == shader_macro);
        match convert_macro(shader_macro) {
            Ok(os_macro) => {
                os_macros_vec.push(os_macro);
                assert(os_macro_views(os_macros_vec@) =~= before.push(os_macro@));
            },
            Err(e) => {
                proof {
                    lemma_os_macros_error(all, it.index() as int + 1);
                }
                return Err(e);
            },
        }
    }
    assert(all.take(all.len() as int) =~= all);
    Ok(os_macros_vec)
}

/// An error among the first `n` macros is the error of the whole list.
pub proof fn lemma_os_macros_error(ms: Seq<ShaderMacro>, n: int)
    requires
        0 <= n <= ms.len(),
        os_macros(ms.take(n)) is Err,
    ensures
        os_macros(ms) == os_macros(ms.take(n)),
    decreases ms.len() - n,
{
    if n < ms.len() {
        assert(ms.take(n + 1).drop_last() =~= ms.take(n));
        lemma_os_macros_error(ms, n + 1);
    } else {
        assert(ms.take(n) =~= ms);
    }
}

/// A list of macros is encoded exactly if each of them is, and then macro by
/// macro, in order.
pub proof fn lemma_os_macros_ok(ms: Seq<ShaderMacro>)
    ensures
        os_macros(ms) is Ok <==> forall|i: int| 0 <= i < ms.len() ==> os_macro(#[trigger] ms[i]) is Ok,
        os_macros(ms) matches Ok(os) ==> os.len() == ms.len() && forall|i: int|
            0 <= i < ms.len() ==> os_macro(ms[i]) == Ok::<
                (Seq<u8>, Seq<u8>),
                StringToOSAsciiError,
            >(#[trigger] os[i]),
    decreases ms.len(),
{
    if ms.len() > 0 {
        let front = ms.drop_last();
        lemma_os_macros_ok(front);
        if os_macros(ms) is Ok {
            assert forall|i: int| 0 <= i < ms.len() implies os_macro(#[trigger] ms[i]) is Ok by {
                if i < front.len() {
                    assert(front[i] == ms[i]);
                }
            }
        }
        if forall|i: int| 0 <= i < ms.len() ==> os_macro(#[trigger] ms[i]) is Ok {
            assert forall|i: int| 0 <= i < front.len() implies os_macro(
                #[trigger] front[i],
            ) is Ok by {
                assert(front[i] == ms[i]);
            }
            assert(os_macro(ms[ms.len() - 1]) is Ok);
        }
        if os_macros(ms) is Ok {
            let os = os_macros(ms)->Ok_0;
            let os_front = os_macros(front)->Ok_0;
            assert forall|i: int| 0 <= i < ms.len() implies os_macro(ms[i]) == Ok::<
                (Seq<u8>, Seq<u8>),
                StringToOSAsciiError,
            >(#[trigger] os[i]) by {
                if i < front.len() {
                    assert(front[i] == ms[i]);
                    assert(os[i] == os_front[i]);
                }
            }
        }
    }
}

/// Builds the array of references that the native layer reads: one entry per
/// encoded macro, in order, then the terminator. For `n` macros it has
/// `n + 1` entries, for none the terminator alone.
pub fn macro_array<'a>(os_macros: &'a Vec<OsShaderMacro>) -> (array: Vec<MacroRef<'a>>)
    ensures
        array.len() == os_macros.len() + 1,
        macro_ref_views(array@) == macro_array_of(os_macro_views(os_macros@)),
        forall|i: int|
            0 <= i < os_macros.len() ==> (#[trigger] array[i])@ == (
                Some(os_macros[i].name@),
                Some(os_macros[i].definition@),
            ),
        array[os_macros.len() as int]@ == sentinel(),
{
    let mut array: Vec<MacroRef<'a>> = Vec::new();
    let mut i: usize = 0;
    while i < os_macros.len()
        invariant
            i <= os_macros.len(),
            array.len() == i,
            forall|j: int|
                0 <= j < i ==> (#[trigger] array[j])@ == (
                    Some(os_macros[j].name@),
                    Some(os_macros[j].definition@),
                ),
        decreases os_macros.len() - i,
    {
        let os_macro = &os_macros[i];
        array.push(
            MacroRef {
                name: Some(os_macro.name.as_slice()),
                definition: Some(os_macro.definition.as_slice()),
            },
        );
        i += 1;
    }
    array.push(MacroRef { name: None, definition: None });
    assert(macro_ref_views(array@) =~= macro_array_of(os_macro_views(os_macros@)));
    array
}

} // verus!
