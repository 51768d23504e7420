//! The header partitioner and output writer: drives the declaration and
//! method wrapper emitters once per header unit and produces the per-unit
//! header/source text pair and the umbrella header text.
use crate::decl::{generate_type_declaration, name_views, spec_decl};
use crate::method::{spec_emit_wrapper};
use crate::model::{
    CTypeExtV, CppAndCMethod, CppType, CppTypeIndirection, CppTypeInfo, ErrorKind, GenError,
    TypeModel,
};
use crate::text::{ascii_upper, spec_upper};
use crate::translate::{spec_to_c_type, to_c_type};
use vstd::prelude::*;
use vstd::string::*;

verus! {

/// One output unit: an owning header with its types and its methods.
#[derive(Debug)]
pub struct HeaderUnit {
    pub include_file: String,
    pub type_names: Vec<String>,
    pub methods: Vec<CppAndCMethod>,
}

/// The generated output for one header unit.
#[derive(Debug)]
pub struct CHeaderData {
    pub include_file: String,
    pub methods: Vec<CppAndCMethod>,
    pub header_text: String,
    pub source_text: String,
}

/// Everything one generation run produces.
#[derive(Debug)]
pub struct CppAndCData {
    pub cpp_data: TypeModel,
    pub c_headers: Vec<CHeaderData>,
    pub all_header_text: String,
}

/// Whether a method is wrapped at all: protected methods and signals are
/// excluded from wrapping entirely.
pub open spec fn spec_keep(m: CppAndCMethod) -> bool {
    !m.cpp_method.is_protected && !m.cpp_method.is_signal
}

/// The methods that survive filtering, in their original order.
pub open spec fn spec_filter(ms: Seq<CppAndCMethod>) -> Seq<CppAndCMethod>
    decreases ms.len(),
{
    if ms.len() == 0 {
        Seq::<CppAndCMethod>::empty()
    } else {
        (if spec_keep(ms[0]) {
            seq![ms[0]]
        } else {
            Seq::<CppAndCMethod>::empty()
        }) + spec_filter(ms.drop_first())
    }
}

/// Filtering: protected and signal-kind methods never reach the emitters;
/// everything kept is a method of the input, in order.
pub proof fn lemma_filtering(ms: Seq<CppAndCMethod>)
    ensures
        forall|k: int|
            0 <= k < spec_filter(ms).len() ==> spec_keep(#[trigger] spec_filter(ms)[k]),
        forall|k: int|
            0 <= k < spec_filter(ms).len() ==> exists|j: int|
                0 <= j < ms.len() && #[trigger] spec_filter(ms)[k] == ms[j],
        forall|j: int|
            0 <= j < ms.len() && spec_keep(#[trigger] ms[j]) ==> spec_filter(ms).contains(ms[j]),
    decreases ms.len(),
{
    if ms.len() > 0 {
        lemma_filtering(ms.drop_first());
        let rest = spec_filter(ms.drop_first());
        assert forall|k: int| 0 <= k < spec_filter(ms).len() implies exists|j: int|
            0 <= j < ms.len() && #[trigger] spec_filter(ms)[k] == ms[j] by {
            if spec_keep(ms[0]) && k == 0 {
                assert(spec_filter(ms)[0] == ms[0]);
            } else {
                let k2 = if spec_keep(ms[0]) {
                    k - 1
                } else {
                    k
                };
                assert(spec_filter(ms)[k] == rest[k2]);
                let j2 = choose|j2: int| 0 <= j2 < ms.drop_first().len() && rest[k2] == ms.drop_first()[j2];
                assert(ms.drop_first()[j2] == ms[j2 + 1]);
            }
        }
        assert forall|j: int| 0 <= j < ms.len() && spec_keep(#[trigger] ms[j]) implies spec_filter(
            ms,
        ).contains(ms[j]) by {
            if j == 0 {
                assert(spec_filter(ms)[0] == ms[0]);
            } else {
                assert(ms.drop_first()[j - 1] == ms[j]);
                assert(rest.contains(ms[j]));
                let k = choose|k: int| 0 <= k < rest.len() && rest[k] == ms[j];
                let off: int = if spec_keep(ms[0]) {
                    1
                } else {
                    0
                };
                assert(spec_filter(ms)[k + off] == rest[k]);
            }
        }
    }
}

/// Drops protected and signal-kind methods, keeping the rest in order.
pub fn filter_methods(methods: Vec<CppAndCMethod>) -> (r: Vec<CppAndCMethod>)
    ensures
        r@ == spec_filter(methods@),
{
    let ghost orig = methods@;
    let mut rest = methods;
    let mut kept: Vec<CppAndCMethod> = Vec::new();
    proof {
        assert(kept@ + spec_filter(rest@) =~= spec_filter(orig));
    }
    while rest.len() > 0
        invariant
            kept@ + spec_filter(rest@) == spec_filter(orig),
        decreases rest.len(),
    {
        let ghost prev = rest@;
        let m = rest.remove(0);
        proof {
            assert(prev.remove(0) =~= prev.drop_first());
        }
        if !m.cpp_method.is_protected && !m.cpp_method.is_signal {
            kept.push(m);
            proof {
                assert(kept@ + spec_filter(rest@) =~= spec_filter(orig));
            }
        } else {
            proof {
                assert(kept@ + spec_filter(rest@) =~= spec_filter(orig));
            }
        }
    }
    proof {
        assert(spec_filter(rest@) =~= Seq::<CppAndCMethod>::empty());
        assert(kept@ =~= spec_filter(orig));
    }
    kept
}

/// The declarations emitted for the unit's own types, in order, threading
/// the visited set: each name is translated as a bare (value) type, then
/// declared.
pub open spec fn spec_own_decls(
    types: Seq<(String, CppTypeInfo)>,
    names: Seq<String>,
    current: Seq<char>,
    visited: Seq<Seq<char>>,
    fuel: nat,
) -> Result<(Seq<char>, Seq<Seq<char>>), ErrorKind>
    decreases names.len(),
{
    if names.len() == 0 {
        Ok((Seq::<char>::empty(), visited))
    } else {
        match spec_to_c_type(
            types,
            CppType { base: names[0], indirection: CppTypeIndirection::Direct },
            fuel,
        ) {
            Err(k) => Err(k),
            Ok(ext) => match spec_decl(types, ext, current, visited, fuel) {
                Err(k) => Err(k),
                Ok((t, v)) => match spec_own_decls(types, names.drop_first(), current, v, fuel) {
                    Err(k) => Err(k),
                    Ok((t2, v2)) => Ok((t + t2, v2)),
                },
            },
        }
    }
}

/// The C types referenced by one method's signature, return type first.
pub open spec fn spec_one_method_exts(m: CppAndCMethod) -> Seq<CTypeExtV> {
    seq![m.c_signature.return_type@] + m.c_signature.arguments@.map_values(
        |a: crate::model::CFunctionArgument| a.argument_type@,
    )
}

/// The declarations of a list of C types, threading the visited set.
pub open spec fn spec_decl_list(
    types: Seq<(String, CppTypeInfo)>,
    exts: Seq<CTypeExtV>,
    current: Seq<char>,
    visited: Seq<Seq<char>>,
    fuel: nat,
) -> Result<(Seq<char>, Seq<Seq<char>>), ErrorKind>
    decreases exts.len(),
{
    if exts.len() == 0 {
        Ok((Seq::<char>::empty(), visited))
    } else {
        match spec_decl(types, exts[0], current, visited, fuel) {
            Err(k) => Err(k),
            Ok((t, v)) => match spec_decl_list(types, exts.drop_first(), current, v, fuel) {
                Err(k) => Err(k),
                Ok((t2, v2)) => Ok((t + t2, v2)),
            },
        }
    }
}

/// The declarations for all types referenced by the methods' signatures.
pub open spec fn spec_method_decls(
    types: Seq<(String, CppTypeInfo)>,
    ms: Seq<CppAndCMethod>,
    current: Seq<char>,
    visited: Seq<Seq<char>>,
    fuel: nat,
) -> Result<(Seq<char>, Seq<Seq<char>>), ErrorKind>
    decreases ms.len(),
{
    if ms.len() == 0 {
        Ok((Seq::<char>::empty(), visited))
    } else {
        match spec_decl_list(types, spec_one_method_exts(ms[0]), current, visited, fuel) {
            Err(k) => Err(k),
            Ok((t, v)) => match spec_method_decls(types, ms.drop_first(), current, v, fuel) {
                Err(k) => Err(k),
                Ok((t2, v2)) => Ok((t + t2, v2)),
            },
        }
    }
}

/// The concatenated declarations and definitions of all wrapped methods.
pub open spec fn spec_methods_emit(ms: Seq<CppAndCMethod>) -> Result<
    (Seq<char>, Seq<char>),
    ErrorKind,
>
    decreases ms.len(),
{
    if ms.len() == 0 {
        Ok((Seq::<char>::empty(), Seq::<char>::empty()))
    } else {
        match spec_emit_wrapper(ms[0]) {
            Err(k) => Err(k),
            Ok((h, s)) => match spec_methods_emit(ms.drop_first()) {
                Err(k) => Err(k),
                Ok((h2, s2)) => Ok((h + h2, s + s2)),
            },
        }
    }
}

/// The include-guard name of one unit's header.
pub open spec fn spec_guard(file: Seq<char>) -> Seq<char> {
    "QTCW_"@ + spec_upper(file) + "_H"@
}

/// Everything a unit's header starts with: guard, global include, the
/// C++-only library include, and the C-linkage opening marker.
pub open spec fn spec_unit_prologue(file: Seq<char>) -> Seq<char> {
    "#ifndef "@ + spec_guard(file) + "\n#define "@ + spec_guard(file) + "\n\n"@
        + "#include \"qtcw_global.h\"\n\n"@ + "#ifdef __cplusplus\n#include <QtCore>\n#endif\n\n"@
        + "QTCW_EXTERN_C_BEGIN\n\n"@
}

/// The header and source text generated for one unit: declarations for
/// the unit's own types and for every type referenced by its (filtered)
/// methods' signatures precede the method declarations and definitions.
pub open spec fn spec_generate_one(
    types: Seq<(String, CppTypeInfo)>,
    unit: HeaderUnit,
) -> Result<(Seq<char>, Seq<char>), ErrorKind> {
    let fuel = types.len();
    let file = unit.include_file@;
    let kept = spec_filter(unit.methods@);
    match spec_own_decls(types, unit.type_names@, file, Seq::<Seq<char>>::empty(), fuel) {
        Err(k) => Err(k),
        Ok((t1, v1)) => match spec_method_decls(types, kept, file, v1, fuel) {
            Err(k) => Err(k),
            Ok((t2, _v2)) => match spec_methods_emit(kept) {
                Err(k) => Err(k),
                Ok((hc, sc)) => Ok(
                    (
                        spec_unit_prologue(file) + t1 + t2 + hc + "\nQTCW_EXTERN_C_END\n\n"@
                            + "#endif // "@ + spec_guard(file) + "\n"@,
                        "#include \"qtcw_"@ + file + ".h\"\n\n"@ + sc,
                    ),
                ),
            },
        },
    }
}

/// Idempotence: the generated text is a pure function of the metadata, so
/// two runs over identical metadata yield byte-identical output.
pub proof fn lemma_generation_deterministic(
    types: Seq<(String, CppTypeInfo)>,
    unit: HeaderUnit,
    h1: Seq<char>,
    s1: Seq<char>,
    h2: Seq<char>,
    s2: Seq<char>,
)
    requires
        spec_generate_one(types, unit) == Ok::<_, ErrorKind>((h1, s1)),
        spec_generate_one(types, unit) == Ok::<_, ErrorKind>((h2, s2)),
    ensures
        h1 == h2,
        s1 == s2,
{
}

/// Emits the declarations of the unit's own types, appending the names
/// it declares to the visited set.
fn emit_own_decls(
    model: &TypeModel,
    names: &Vec<String>,
    current: &String,
    visited: &mut Vec<String>,
    fuel: u64,
) -> (r: Result<String, GenError>)
    ensures
        r is Ok <==> spec_own_decls(
            model.types@,
            names@,
            current@,
            name_views(old(visited)@),
            fuel as nat,
        ) is Ok,
        r is Ok ==> r->Ok_0@ == spec_own_decls(
            model.types@,
            names@,
            current@,
            name_views(old(visited)@),
            fuel as nat,
        )->Ok_0.0 && name_views(final(visited)@) == spec_own_decls(
            model.types@,
            names@,
            current@,
            name_views(old(visited)@),
            fuel as nat,
        )->Ok_0.1,
        r is Err ==> r->Err_0.kind() == spec_own_decls(
            model.types@,
            names@,
            current@,
            name_views(old(visited)@),
            fuel as nat,
        )->Err_0,
{
    let ghost total = spec_own_decls(
        model.types@,
        names@,
        current@,
        name_views(visited@),
        fuel as nat,
    );
    let mut text = String::new();
    let mut i: usize = 0;
    proof {
        assert(names@.skip(0) =~= names@);
        match spec_own_decls(
            model.types@,
            names@.skip(0),
            current@,
            name_views(visited@),
            fuel as nat,
        ) {
            Ok(rest) => {
                assert(text@ + rest.0 =~= rest.0);
            },
            Err(_) => {},
        }
    }
    while i < names.len()
        invariant
            i <= names.len(),
            total == spec_own_decls(
                model.types@,
                names@,
                current@,
                name_views(old(visited)@),
                fuel as nat,
            ),
            match spec_own_decls(
                model.types@,
                names@.skip(i as int),
                current@,
                name_views(visited@),
                fuel as nat,
            ) {
                Ok(rest) => total is Ok && total->Ok_0.0 == text@ + rest.0 && total->Ok_0.1
                    == rest.1,
                Err(k) => total is Err && total->Err_0 == k,
            },
        decreases names.len() - i,
    {
        proof {
            assert(names@.skip(i as int)[0] == names@[i as int]);
            assert(names@.skip(i as int).drop_first() =~= names@.skip(i as int + 1));
        }
        let t = CppType { base: names[i].clone(), indirection: CppTypeIndirection::Direct };
        let ext = match to_c_type(model, &t, fuel) {
            Err(e) => {
                return Err(e);
            },
            Ok(ext) => ext,
        };
        match generate_type_declaration(model, &ext, current, visited, fuel) {
            Err(e) => {
                return Err(e);
            },
            Ok(d) => {
                text.append(d.as_str());
            },
        }
        i = i + 1;
        proof {
            match spec_own_decls(
                model.types@,
                names@.skip(i as int),
                current@,
                name_views(visited@),
                fuel as nat,
            ) {
                Ok(rest) => {
                    assert(total->Ok_0.0 =~= text@ + rest.0);
                },
                Err(_) => {},
            }
        }
    }
    proof {
        assert(names@.skip(names.len() as int) =~= Seq::<String>::empty());
        assert(total->Ok_0.0 =~= text@);
    }
    Ok(text)
}

/// Emits the declarations of all types referenced by the methods'
/// signatures, return type first, then the argument types, per method.
fn emit_method_decls(
    model: &TypeModel,
    ms: &Vec<CppAndCMethod>,
    current: &String,
    visited: &mut Vec<String>,
    fuel: u64,
) -> (r: Result<String, GenError>)
    ensures
        r is Ok <==> spec_method_decls(
            model.types@,
            ms@,
            current@,
            name_views(old(visited)@),
            fuel as nat,
        ) is Ok,
        r is Ok ==> r->Ok_0@ == spec_method_decls(
            model.types@,
            ms@,
            current@,
            name_views(old(visited)@),
            fuel as nat,
        )->Ok_0.0 && name_views(final(visited)@) == spec_method_decls(
            model.types@,
            ms@,
            current@,
            name_views(old(visited)@),
            fuel as nat,
        )->Ok_0.1,
        r is Err ==> r->Err_0.kind() == spec_method_decls(
            model.types@,
            ms@,
            current@,
            name_views(old(visited)@),
            fuel as nat,
        )->Err_0,
{
    let ghost total = spec_method_decls(
        model.types@,
        ms@,
        current@,
        name_views(visited@),
        fuel as nat,
    );
    let mut text = String::new();
    let mut j: usize = 0;
    proof {
        assert(ms@.skip(0) =~= ms@);
        match spec_method_decls(
            model.types@,
            ms@.skip(0),
            current@,
            name_views(visited@),
            fuel as nat,
        ) {
            Ok(rest) => {
                assert(text@ + rest.0 =~= rest.0);
            },
            Err(_) => {},
        }
    }
    while j < ms.len()
        invariant
            j <= ms.len(),
            total == spec_method_decls(
                model.types@,
                ms@,
                current@,
                name_views(old(visited)@),
                fuel as nat,
            ),
            match spec_method_decls(
                model.types@,
                ms@.skip(j as int),
                current@,
                name_views(visited@),
                fuel as nat,
            ) {
                Ok(rest) => total is Ok && total->Ok_0.0 == text@ + rest.0 && total->Ok_0.1
                    == rest.1,
                Err(k) => total is Err && total->Err_0 == k,
            },
        decreases ms.len() - j,
    {
        proof {
            assert(ms@.skip(j as int)[0] == ms@[j as int]);
            assert(ms@.skip(j as int).drop_first() =~= ms@.skip(j as int + 1));
        }
        let ghost v_head = name_views(visited@);
        let ghost m_exts = spec_one_method_exts(ms@[j as int]);
        let ghost inner_total = spec_decl_list(
            model.types@,
            m_exts,
            current@,
            v_head,
            fuel as nat,
        );
        let mut one_text = String::new();
        proof {
            assert(m_exts[0] == ms@[j as int].c_signature.return_type@);
            assert(m_exts.drop_first() =~= ms@[j as int].c_signature.arguments@.map_values(
                |a: crate::model::CFunctionArgument| a.argument_type@,
            ));
        }
        match generate_type_declaration(
            model,
            &ms[j].c_signature.return_type,
            current,
            visited,
            fuel,
        ) {
            Err(e) => {
                proof {
                    assert(inner_total is Err && inner_total->Err_0 == e.kind());
                    assert(total is Err && total->Err_0 == e.kind());
                }
                return Err(e);
            },
            Ok(d) => {
                one_text.append(d.as_str());
            },
        }
        let ghost arg_exts = m_exts.drop_first();
        proof {
            assert(arg_exts.skip(0) =~= arg_exts);
        }
        let nargs = ms[j].c_signature.arguments.len();
        let mut k: usize = 0;
        while k < nargs
            invariant
                k <= nargs == ms@[j as int].c_signature.arguments@.len(),
                0 <= j < ms@.len(),
                total == spec_method_decls(
                    model.types@,
                    ms@,
                    current@,
                    name_views(old(visited)@),
                    fuel as nat,
                ),
                arg_exts == ms@[j as int].c_signature.arguments@.map_values(
                    |a: crate::model::CFunctionArgument| a.argument_type@,
                ),
                inner_total == spec_decl_list(
                    model.types@,
                    m_exts,
                    current@,
                    v_head,
                    fuel as nat,
                ),
                inner_total is Err ==> total is Err && total->Err_0 == inner_total->Err_0,
                match spec_decl_list(
                    model.types@,
                    arg_exts.skip(k as int),
                    current@,
                    name_views(visited@),
                    fuel as nat,
                ) {
                    Ok(rest) => inner_total is Ok && inner_total->Ok_0.0 == one_text@ + rest.0
                        && inner_total->Ok_0.1 == rest.1,
                    Err(k2) => inner_total is Err && inner_total->Err_0 == k2,
                },
            decreases nargs - k,
        {
            proof {
                assert(arg_exts.skip(k as int)[0] == arg_exts[k as int]);
                assert(arg_exts[k as int] == ms@[j as int].c_signature.arguments@[k as int].argument_type@);
                assert(arg_exts.skip(k as int).drop_first() =~= arg_exts.skip(k as int + 1));
            }
            match generate_type_declaration(
                model,
                &ms[j].c_signature.arguments[k].argument_type,
                current,
                visited,
                fuel,
            ) {
                Err(e) => {
                    proof {
                        assert(inner_total is Err && inner_total->Err_0 == e.kind());
                    }
                    return Err(e);
                },
                Ok(d) => {
                    one_text.append(d.as_str());
                },
            }
            k = k + 1;
            proof {
                match spec_decl_list(
                    model.types@,
                    arg_exts.skip(k as int),
                    current@,
                    name_views(visited@),
                    fuel as nat,
                ) {
                    Ok(rest) => {
                        assert(inner_total->Ok_0.0 =~= one_text@ + rest.0);
                    },
                    Err(_) => {},
                }
            }
        }
        proof {
            assert(arg_exts.skip(nargs as int) =~= Seq::<CTypeExtV>::empty());
            assert(inner_total is Ok);
            assert(inner_total->Ok_0.0 =~= one_text@);
            assert(inner_total->Ok_0.1 == name_views(visited@));
        }
        text.append(one_text.as_str());
        j = j + 1;
        proof {
            match spec_method_decls(
                model.types@,
                ms@.skip(j as int),
                current@,
                name_views(visited@),
                fuel as nat,
            ) {
                Ok(rest) => {
                    assert(total->Ok_0.0 =~= text@ + rest.0);
                },
                Err(_) => {},
            }
        }
    }
    proof {
        assert(ms@.skip(ms.len() as int) =~= Seq::<CppAndCMethod>::empty());
        assert(total->Ok_0.0 =~= text@);
    }
    Ok(text)
}

/// Emits the declaration and definition text of all wrapped methods.
fn emit_methods(ms: &Vec<CppAndCMethod>) -> (r: Result<(String, String), GenError>)
    ensures
        r is Ok <==> spec_methods_emit(ms@) is Ok,
        r is Ok ==> r->Ok_0.0@ == spec_methods_emit(ms@)->Ok_0.0 && r->Ok_0.1@
            == spec_methods_emit(ms@)->Ok_0.1,
        r is Err ==> r->Err_0.kind() == spec_methods_emit(ms@)->Err_0,
{
    let ghost total = spec_methods_emit(ms@);
    let mut hs = String::new();
    let mut srcs = String::new();
    let mut e: usize = 0;
    proof {
        assert(ms@.skip(0) =~= ms@);
        match spec_methods_emit(ms@.skip(0)) {
            Ok(rest) => {
                assert(hs@ + rest.0 =~= rest.0);
                assert(srcs@ + rest.1 =~= rest.1);
            },
            Err(_) => {},
        }
    }
    while e < ms.len()
        invariant
            e <= ms.len(),
            total == spec_methods_emit(ms@),
            match spec_methods_emit(ms@.skip(e as int)) {
                Ok(rest) => total is Ok && total->Ok_0.0 == hs@ + rest.0 && total->Ok_0.1 == srcs@
                    + rest.1,
                Err(k2) => total is Err && total->Err_0 == k2,
            },
        decreases ms.len() - e,
    {
        proof {
            assert(ms@.skip(e as int)[0] == ms@[e as int]);
            assert(ms@.skip(e as int).drop_first() =~= ms@.skip(e as int + 1));
        }
        match ms[e].emit_wrapper() {
            Err(err) => {
                return Err(err);
            },
            Ok((h, s)) => {
                hs.append(h.as_str());
                srcs.append(s.as_str());
            },
        }
        e = e + 1;
        proof {
            match spec_methods_emit(ms@.skip(e as int)) {
                Ok(rest) => {
                    assert(total->Ok_0.0 =~= hs@ + rest.0);
                    assert(total->Ok_0.1 =~= srcs@ + rest.1);
                },
                Err(_) => {},
            }
        }
    }
    proof {
        assert(ms@.skip(ms.len() as int) =~= Seq::<CppAndCMethod>::empty());
        assert(total->Ok_0.0 =~= hs@);
        assert(total->Ok_0.1 =~= srcs@);
    }
    Ok((hs, srcs))
}

/// Generates the header/source pair of one unit.
#[verifier::rlimit(60)]
pub fn generate_one(model: &TypeModel, unit: HeaderUnit) -> (r: Result<CHeaderData, GenError>)
    ensures
        r is Ok <==> spec_generate_one(model.types@, unit) is Ok,
        r is Ok ==> r->Ok_0.header_text@ == spec_generate_one(model.types@, unit)->Ok_0.0,
        r is Ok ==> r->Ok_0.source_text@ == spec_generate_one(model.types@, unit)->Ok_0.1,
        r is Ok ==> r->Ok_0.include_file@ == unit.include_file@ && r->Ok_0.methods@ == spec_filter(
            unit.methods@,
        ),
        r is Err ==> r->Err_0.kind() == spec_generate_one(model.types@, unit)->Err_0,
{
    let fuel: u64 = model.types.len() as u64;
    let HeaderUnit { include_file, type_names, methods } = unit;
    let kept = filter_methods(methods);
    let mut visited: Vec<String> = Vec::new();
    proof {
        assert(name_views(visited@) =~= Seq::<Seq<char>>::empty());
    }

    let own_text = match emit_own_decls(model, &type_names, &include_file, &mut visited, fuel) {
        Err(e) => {
            return Err(e);
        },
        Ok(t) => t,
    };
    let method_decl_text = match emit_method_decls(
        model,
        &kept,
        &include_file,
        &mut visited,
        fuel,
    ) {
        Err(e) => {
            return Err(e);
        },
        Ok(t) => t,
    };
    let (methods_h, methods_src) = match emit_methods(&kept) {
        Err(e) => {
            return Err(e);
        },
        Ok(p) => p,
    };

    // Assemble the header text.
    let upper = ascii_upper(include_file.as_str());
    let mut guard = String::from_str("QTCW_");
    guard.append(upper.as_str());
    guard.append("_H");
    proof {
        assert(guard@ =~= spec_guard(include_file@));
    }
    let mut h = String::from_str("#ifndef ");
    h.append(guard.as_str());
    h.append("\n#define ");
    h.append(guard.as_str());
    h.append("\n\n");
    h.append("#include \"qtcw_global.h\"\n\n");
    h.append("#ifdef __cplusplus\n#include <QtCore>\n#endif\n\n");
    h.append("QTCW_EXTERN_C_BEGIN\n\n");
    proof {
        assert(h@ =~= spec_unit_prologue(include_file@));
    }
    h.append(own_text.as_str());
    h.append(method_decl_text.as_str());
    h.append(methods_h.as_str());
    h.append("\nQTCW_EXTERN_C_END\n\n");
    h.append("#endif // ");
    h.append(guard.as_str());
    h.append("\n");

    // Assemble the source text.
    let mut src = String::from_str("#include \"qtcw_");
    src.append(include_file.as_str());
    src.append(".h\"\n\n");
    src.append(methods_src.as_str());

    proof {
        assert(h@ =~= spec_generate_one(model.types@, unit)->Ok_0.0);
        assert(src@ =~= spec_generate_one(model.types@, unit)->Ok_0.1);
    }
    Ok(CHeaderData { include_file, methods: kept, header_text: h, source_text: src })
}

/// The include lines of the umbrella header, one per unit, in order.
pub open spec fn spec_umbrella_includes(files: Seq<Seq<char>>) -> Seq<char>
    decreases files.len(),
{
    if files.len() == 0 {
        Seq::<char>::empty()
    } else {
        ("#include \"qtcw_"@ + files[0] + ".h\"\n"@) + spec_umbrella_includes(files.drop_first())
    }
}

/// The umbrella header: it includes every generated per-unit header.
pub open spec fn spec_umbrella(files: Seq<Seq<char>>) -> Seq<char> {
    "#ifndef QTCW_H\n#define QTCW_H\n\n"@ + spec_umbrella_includes(files)
        + "#endif // QTCW_H\n"@
}

/// The generator: the immutable type model and the units to produce.
pub struct CGenerator {
    pub cpp_data: TypeModel,
    pub units: Vec<HeaderUnit>,
}


impl CGenerator {
    /// Builds a generator over a type model and its header units.
    pub fn new(cpp_data: TypeModel, units: Vec<HeaderUnit>) -> (r: CGenerator)
        ensures
            r.cpp_data == cpp_data,
            r.units == units,
    {
        CGenerator { cpp_data, units }
    }

    /// Generates every unit's header/source pair and the umbrella header.
    #[verifier::rlimit(60)]
    #[verifier::loop_isolation(false)]
    pub fn generate_all(self) -> (r: Result<CppAndCData, GenError>)
        ensures
            r is Ok <==> (forall|i: int|
                0 <= i < self.units@.len() ==> #[trigger] spec_generate_one(
                    self.cpp_data.types@,
                    self.units@[i],
                ) is Ok),
            r is Ok ==> {
                let out = r->Ok_0;
                &&& out.cpp_data == self.cpp_data
                &&& out.c_headers@.len() == self.units@.len()
                &&& (forall|i: int|
                    0 <= i < self.units@.len() ==> {
                        let d = #[trigger] out.c_headers@[i];
                        &&& d.header_text@ == spec_generate_one(
                            self.cpp_data.types@,
                            self.units@[i],
                        )->Ok_0.0
                        &&& d.source_text@ == spec_generate_one(
                            self.cpp_data.types@,
                            self.units@[i],
                        )->Ok_0.1
                        &&& d.include_file@ == self.units@[i].include_file@
                        &&& d.methods@ == spec_filter(self.units@[i].methods@)
                    })
                &&& out.all_header_text@ == spec_umbrella(
                    self.units@.map_values(|u: HeaderUnit| u.include_file@),
                )
            },
            r is Err ==> exists|i: int|
                0 <= i < self.units@.len() && #[trigger] spec_generate_one(
                    self.cpp_data.types@,
                    self.units@[i],
                ) is Err && r->Err_0.kind() == spec_generate_one(
                    self.cpp_data.types@,
                    self.units@[i],
                )->Err_0,
    {
        let ghost gunits = self.units@;
        let ghost files = self.units@.map_values(|u: HeaderUnit| u.include_file@);
        let mut units = self.units;
        let model = self.cpp_data;
        let mut c_headers: Vec<CHeaderData> = Vec::new();
        let mut includes = String::new();
        let total_count = units.len();
        proof {
            assert(gunits.len() == total_count as int);
        }
        let mut n: usize = 0;
        proof {
            assert(gunits.skip(0) =~= gunits);
            assert(files.skip(0) =~= files);
        }
        while units.len() > 0
            invariant
                n + units.len() == gunits.len(),
                units@ == gunits.skip(n as int),
                files == gunits.map_values(|u: HeaderUnit| u.include_file@),
                c_headers@.len() == n,
                forall|i: int|
                    0 <= i < n ==> #[trigger] spec_generate_one(model.types@, gunits[i]) is Ok,
                forall|i: int|
                    0 <= i < n ==> {
                        let d = #[trigger] c_headers@[i];
                        &&& d.header_text@ == spec_generate_one(model.types@, gunits[i])->Ok_0.0
                        &&& d.source_text@ == spec_generate_one(model.types@, gunits[i])->Ok_0.1
                        &&& d.include_file@ == gunits[i].include_file@
                        &&& d.methods@ == spec_filter(gunits[i].methods@)
                    },
                spec_umbrella_includes(files) == includes@ + spec_umbrella_includes(
                    files.skip(n as int),
                ),
            decreases units.len(),
        {
            let ghost prev = units@;
            proof {
                assert(gunits.skip(n as int)[0] == gunits[n as int]);
                assert(files[n as int] == gunits[n as int].include_file@);
                assert(files.skip(n as int)[0] == files[n as int]);
                assert(files.skip(n as int).drop_first() =~= files.skip(n as int + 1));
            }
            let unit = units.remove(0);
            proof {
                assert(prev.remove(0) =~= prev.drop_first());
                assert(units@ =~= gunits.skip(n as int + 1));
            }
            let ghost gi: int = n as int;
            includes.append("#include \"qtcw_");
            includes.append(unit.include_file.as_str());
            includes.append(".h\"\n");
            match generate_one(&model, unit) {
                Err(e) => {
                    proof {
                        assert(spec_generate_one(model.types@, gunits[gi]) is Err);
                    }
                    return Err(e);
                },
                Ok(d) => {
                    c_headers.push(d);
                },
            }
            n = n + 1;
            proof {
                assert(spec_umbrella_includes(files) =~= includes@ + spec_umbrella_includes(
                    files.skip(n as int),
                ));
            }
        }
        proof {
            assert(files.skip(gunits.len() as int) =~= Seq::<Seq<char>>::empty());
            assert(spec_umbrella_includes(files) =~= includes@);
        }
        let mut all = String::from_str("#ifndef QTCW_H\n#define QTCW_H\n\n");
        all.append(includes.as_str());
        all.append("#endif // QTCW_H\n");
        proof {
            assert(all@ =~= spec_umbrella(files));
        }
        Ok(CppAndCData { cpp_data: model, c_headers, all_header_text: all })
    }
}

} // verus!
