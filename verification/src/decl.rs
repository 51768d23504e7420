//! The declaration emitter: emits the C-visible declaration of one type
//! (struct / enum / flags typedef / alias typedef), deciding forward
//! versus full declaration, and preventing duplicate emission per output
//! unit through a visited set of already declared C names.
use crate::model::{
    CTypeExtV, CTypeExtended, CType, CppTypeInfo, CppTypeKind, EnumValue, ErrorKind, GenError,
    TypeModel, TypeOrigin, spec_lookup,
};
use crate::text::{
    decimal_i64, decimal_u64, join_strings, spec_decimal, spec_decimal_int, spec_join, spec_stars,
    stars,
};
use crate::translate::{spec_to_c_type, to_c_type};
use vstd::prelude::*;
use vstd::string::*;

verus! {

impl CType {
    /// The C spelling: the base name followed by its pointer stars.
    pub open spec fn spec_to_c_code(&self) -> Seq<char> {
        self.base@ + spec_stars(self.indirection as nat)
    }

    /// Renders the C spelling of this type.
    pub fn to_c_code(&self) -> (r: String)
        ensures
            r@ == self.spec_to_c_code(),
    {
        let mut r = self.base.clone();
        let s = stars(self.indirection);
        r.append(s.as_str());
        r
    }
}

impl CTypeExtV {
    /// The C spelling of the represented C type.
    pub open spec fn spec_c_code(&self) -> Seq<char> {
        self.base + spec_stars(self.indirection)
    }
}

/// Text guarded so that only a C compilation sees it.
pub open spec fn spec_only_c_code(code: Seq<char>) -> Seq<char> {
    "#ifndef __cplusplus // if C\n"@ + code + "#endif // if C\n\n"@
}

/// Wraps generated text so that only a C compilation sees it.
pub fn only_c_code(code: String) -> (r: String)
    ensures
        r@ == spec_only_c_code(code@),
{
    let mut r = String::from_str("#ifndef __cplusplus // if C\n");
    r.append(code.as_str());
    r.append("#endif // if C\n\n");
    r
}

/// Text guarded so that only a C++ compilation sees it.
pub open spec fn spec_only_cpp_code(code: Seq<char>) -> Seq<char> {
    "#ifdef __cplusplus // if C++\n"@ + code + "#endif // if C++\n\n"@
}

/// Wraps generated text so that only a C++ compilation sees it.
pub fn only_cpp_code(code: String) -> (r: String)
    ensures
        r@ == spec_only_cpp_code(code@),
{
    let mut r = String::from_str("#ifdef __cplusplus // if C++\n");
    r.append(code.as_str());
    r.append("#endif // if C++\n\n");
    r
}

/// One enumerator line fragment: `<Type>_<Name> = <value>`.
pub open spec fn spec_enum_item(tag_name: Seq<char>, v: EnumValue) -> Seq<char> {
    tag_name + "_"@ + v.name@ + " = "@ + spec_decimal_int(v.value as int)
}

/// The enum declaration: all enumerators with their literal values when
/// full, only the enum tag when forward.
pub open spec fn spec_enum_declaration(
    tag_name: Seq<char>,
    values: Seq<EnumValue>,
    full: bool,
) -> Seq<char> {
    if full {
        "typedef enum QTCW_"@ + tag_name + " { "@ + spec_join(
            values.map_values(|v: EnumValue| spec_enum_item(tag_name, v)),
            ", "@,
        ) + " } "@ + tag_name + ";\n"@
    } else {
        "typedef enum QTCW_"@ + tag_name + " "@ + tag_name + ";\n"@
    }
}

/// Renders the enum declaration for one unit.
pub fn enum_declaration(tag_name: &String, values: &Vec<EnumValue>, full: bool) -> (r: String)
    ensures
        r@ == spec_enum_declaration(tag_name@, values@, full),
{
    if full {
        let mut items: Vec<String> = Vec::new();
        let mut i: usize = 0;
        while i < values.len()
            invariant
                i <= values.len(),
                items@.len() == i,
                forall|k: int|
                    0 <= k < i ==> #[trigger] items@[k]@ == spec_enum_item(
                        tag_name@,
                        values@[k],
                    ),
            decreases values.len() - i,
        {
            let mut item = tag_name.clone();
            item.append("_");
            item.append(values[i].name.as_str());
            item.append(" = ");
            let num = decimal_i64(values[i].value);
            item.append(num.as_str());
            proof {
                assert(item@ =~= spec_enum_item(tag_name@, values@[i as int]));
            }
            items.push(item);
            i = i + 1;
        }
        proof {
            assert(items@.map_values(|s: String| s@) =~= values@.map_values(
                |v: EnumValue| spec_enum_item(tag_name@, v),
            ));
        }
        let joined = join_strings(&items, ", ");
        let mut r = String::from_str("typedef enum QTCW_");
        r.append(tag_name.as_str());
        r.append(" { ");
        r.append(joined.as_str());
        r.append(" } ");
        r.append(tag_name.as_str());
        r.append(";\n");
        r
    } else {
        let mut r = String::from_str("typedef enum QTCW_");
        r.append(tag_name.as_str());
        r.append(" ");
        r.append(tag_name.as_str());
        r.append(";\n");
        r
    }
}

/// The flags declaration: a plain unsigned-integer typedef.
pub open spec fn spec_flags_declaration(tag_name: Seq<char>) -> Seq<char> {
    "typedef unsigned int "@ + tag_name + ";\n"@
}

/// Renders the unsigned-integer typedef of a bitmask-flags type.
pub fn flags_declaration(tag_name: &String) -> (r: String)
    ensures
        r@ == spec_flags_declaration(tag_name@),
{
    let mut r = String::from_str("typedef unsigned int ");
    r.append(tag_name.as_str());
    r.append(";\n");
    r
}

/// Whether a name contains a C++ scope separator `::`, which no C
/// identifier may carry.
pub open spec fn spec_has_scope_sep(s: Seq<char>) -> bool {
    exists|i: int| 0 <= i && i + 1 < s.len() && #[trigger] s[i] == ':' && s[i + 1] == ':'
}

fn has_scope_sep(s: &String) -> (r: bool)
    ensures
        r == spec_has_scope_sep(s@),
{
    let n = s.as_str().unicode_len();
    if n < 2 {
        return false;
    }
    let mut i: usize = 0;
    while i < n - 1
        invariant
            2 <= n == s@.len(),
            i <= n - 1,
            forall|j: int| 0 <= j < i ==> !(#[trigger] s@[j] == ':' && s@[j + 1] == ':'),
        decreases n - i,
    {
        let c1 = s.as_str().get_char(i);
        let c2 = s.as_str().get_char(i + 1);
        if c1 == ':' && c2 == ':' {
            return true;
        }
        i = i + 1;
    }
    false
}

/// The opaque struct declaration of a class: a fixed-size placeholder
/// struct (full) or only the struct tag (forward), followed by the plain
/// typedef alias.
pub open spec fn spec_struct_declaration(
    name: Seq<char>,
    size: Option<u64>,
    full_declaration: bool,
) -> Seq<char> {
    (if full_declaration && size is Some {
        "struct QTCW_"@ + name + " { char space["@ + spec_decimal(size->0 as nat) + "]; };\n"@
    } else {
        "struct QTCW_"@ + name + ";\n"@
    }) + "typedef struct QTCW_"@ + name + " "@ + name + ";\n\n"@
}

/// Renders the opaque struct declaration of a class.
///
/// Fails when the name is no valid C identifier (it still carries a scope
/// separator), or when a full declaration is requested for a class of
/// unknown byte size: such a class may only be forward-declared.
pub fn struct_declaration(c_struct_name: &String, size: &Option<u64>, full_declaration: bool) -> (r:
    Result<String, GenError>)
    ensures
        r is Ok <==> (!spec_has_scope_sep(c_struct_name@) && (full_declaration ==> size is Some)),
        r is Ok ==> r->Ok_0@ == spec_struct_declaration(c_struct_name@, *size, full_declaration),
        r is Err ==> r->Err_0.kind() == ErrorKind::Metadata && r->Err_0.entity_view()
            == c_struct_name@,
{
    if has_scope_sep(c_struct_name) {
        return Err(GenError::MetadataError { entity: c_struct_name.clone() });
    }
    let mut r;
    match size {
        Some(n) => {
            if full_declaration {
                r = String::from_str("struct QTCW_");
                r.append(c_struct_name.as_str());
                r.append(" { char space[");
                let num = decimal_u64(*n);
                r.append(num.as_str());
                r.append("]; };\n");
            } else {
                r = String::from_str("struct QTCW_");
                r.append(c_struct_name.as_str());
                r.append(";\n");
            }
        },
        None => {
            if full_declaration {
                return Err(GenError::MetadataError { entity: c_struct_name.clone() });
            }
            r = String::from_str("struct QTCW_");
            r.append(c_struct_name.as_str());
            r.append(";\n");
        },
    }
    r.append("typedef struct QTCW_");
    r.append(c_struct_name.as_str());
    r.append(" ");
    r.append(c_struct_name.as_str());
    r.append(";\n\n");
    Ok(r)
}

/// The views of a list of names.
pub open spec fn name_views(v: Seq<String>) -> Seq<Seq<char>> {
    v.map_values(|s: String| s@)
}

/// Whether a name is among the given names.
pub open spec fn contains_name(names: Seq<Seq<char>>, n: Seq<char>) -> bool {
    exists|i: int| 0 <= i < names.len() && names[i] == n
}

/// All names distinct.
pub open spec fn distinct_names(names: Seq<Seq<char>>) -> bool {
    forall|i: int, j: int| 0 <= i < j < names.len() ==> names[i] != names[j]
}

fn visited_contains(v: &Vec<String>, name: &String) -> (r: bool)
    ensures
        r == contains_name(name_views(v@), name@),
{
    let mut i: usize = 0;
    while i < v.len()
        invariant
            i <= v.len(),
            forall|j: int| 0 <= j < i ==> name_views(v@)[j] != name@,
        decreases v.len() - i,
    {
        if v[i] == *name {
            assert(name_views(v@)[i as int] == name@);
            return true;
        }
        i = i + 1;
    }
    false
}

/// The visited set with a name recorded, if it was not recorded yet.
pub open spec fn spec_push_if_new(names: Seq<Seq<char>>, n: Seq<char>) -> Seq<Seq<char>> {
    if contains_name(names, n) {
        names
    } else {
        names.push(n)
    }
}

fn push_if_new(v: &mut Vec<String>, name: &String)
    ensures
        name_views(final(v)@) == spec_push_if_new(name_views(old(v)@), name@),
{
    if !visited_contains(v, name) {
        v.push(name.clone());
        assert(name_views(v@) =~= name_views(old(v)@).push(name@));
    }
}

/// The renaming typedef appended after a declaration when the C name
/// differs from the C++ name: visible to C++ compilations only, it
/// aliases the C++ name to the C name so call sites can reinterpret.
pub open spec fn spec_rename_suffix(t: CTypeExtV, text: Seq<char>) -> Seq<char> {
    if t.conversion.is_renamed {
        text + spec_only_cpp_code("typedef "@ + t.cpp_base + " "@ + t.base + ";\n"@)
    } else {
        text
    }
}

fn append_rename(t: &CTypeExtended, text: String) -> (r: String)
    ensures
        r@ == spec_rename_suffix(t@, text@),
{
    if t.conversion.is_renamed {
        let mut line = String::from_str("typedef ");
        line.append(t.cpp_base.as_str());
        line.append(" ");
        line.append(t.c_type.base.as_str());
        line.append(";\n");
        let mut r = text;
        let wrapped = only_cpp_code(line);
        r.append(wrapped.as_str());
        r
    } else {
        text
    }
}

/// The declaration emitted for one C type within one output unit, with
/// the updated visited set: empty text if the name was already declared;
/// an include for the one C type that needs a system header; otherwise
/// the full or forward declaration depending on whether the current unit
/// is the type's owning header.  Alias types first declare their target.
pub open spec fn spec_decl(
    types: Seq<(String, CppTypeInfo)>,
    t: CTypeExtV,
    current: Seq<char>,
    visited: Seq<Seq<char>>,
    fuel: nat,
) -> Result<(Seq<char>, Seq<Seq<char>>), ErrorKind>
    decreases fuel,
{
    if contains_name(visited, t.base) {
        Ok((Seq::<char>::empty(), visited))
    } else if t.base == "wchar_t"@ {
        Ok((spec_only_c_code("#include <wchar.h>\n"@), visited))
    } else {
        match spec_lookup(types, t.cpp_base) {
            None => Err(ErrorKind::Metadata),
            Some(info) => match info.origin {
                TypeOrigin::BuiltIn => Ok((spec_rename_suffix(t, Seq::<char>::empty()), visited)),
                TypeOrigin::Unrecognized => Err(ErrorKind::Metadata),
                TypeOrigin::OwningHeader { include_file } => {
                    let full = include_file@ == current;
                    match info.kind {
                        CppTypeKind::Unknown => Err(ErrorKind::Metadata),
                        CppTypeKind::Unsupported => Err(ErrorKind::Metadata),
                        CppTypeKind::Primitive => Ok(
                            (
                                spec_rename_suffix(t, Seq::<char>::empty()),
                                spec_push_if_new(visited, t.base),
                            ),
                        ),
                        CppTypeKind::Enum { values } => Ok(
                            (
                                spec_rename_suffix(
                                    t,
                                    spec_only_c_code(
                                        spec_enum_declaration(t.base, values@, full),
                                    ),
                                ),
                                spec_push_if_new(visited, t.base),
                            ),
                        ),
                        CppTypeKind::Flags { .. } => Ok(
                            (
                                spec_rename_suffix(t, spec_flags_declaration(t.base)),
                                spec_push_if_new(visited, t.base),
                            ),
                        ),
                        CppTypeKind::Class { size } => {
                            if !(!spec_has_scope_sep(t.base) && (full ==> size is Some)) {
                                Err(ErrorKind::Metadata)
                            } else {
                                Ok(
                                    (
                                        spec_rename_suffix(
                                            t,
                                            spec_only_c_code(
                                                spec_struct_declaration(t.base, size, full),
                                            ),
                                        ),
                                        spec_push_if_new(visited, t.base),
                                    ),
                                )
                            }
                        },
                        CppTypeKind::TypeAlias { target } => {
                            if fuel == 0 {
                                Err(ErrorKind::Metadata)
                            } else {
                                match spec_to_c_type(types, target, (fuel - 1) as nat) {
                                    Err(k) => Err(k),
                                    Ok(meaning) => match spec_decl(
                                        types,
                                        meaning,
                                        current,
                                        visited,
                                        (fuel - 1) as nat,
                                    ) {
                                        Err(k) => Err(k),
                                        Ok((inner_text, v2)) => Ok(
                                            (
                                                spec_rename_suffix(
                                                    t,
                                                    inner_text + spec_only_c_code(
                                                        "typedef "@ + meaning.spec_c_code() + " "@
                                                            + t.base + ";\n"@,
                                                    ),
                                                ),
                                                spec_push_if_new(v2, t.base),
                                            ),
                                        ),
                                    },
                                }
                            }
                        },
                    }
                },
            },
        }
    }
}

/// No duplicate declarations: the emitter returns empty text for a name
/// already in the visited set, it records every name it declares, and it
/// only ever extends the visited set with names not yet in it — so within
/// one output unit each C type name's declaration is emitted at most once.
pub proof fn lemma_no_duplicate_declarations(
    types: Seq<(String, CppTypeInfo)>,
    t: CTypeExtV,
    current: Seq<char>,
    visited: Seq<Seq<char>>,
    fuel: nat,
)
    ensures
        contains_name(visited, t.base) ==> spec_decl(types, t, current, visited, fuel) == Ok::<
            _,
            ErrorKind,
        >((Seq::<char>::empty(), visited)),
        spec_decl(types, t, current, visited, fuel) is Ok ==> {
            let v2 = spec_decl(types, t, current, visited, fuel)->Ok_0.1;
            &&& v2.len() >= visited.len()
            &&& v2.take(visited.len() as int) == visited
            &&& (distinct_names(visited) ==> distinct_names(v2))
        },
    decreases fuel,
{
    if contains_name(visited, t.base) {
        assert(visited.take(visited.len() as int) =~= visited);
    } else if t.base == "wchar_t"@ {
        assert(visited.take(visited.len() as int) =~= visited);
    } else {
        match spec_lookup(types, t.cpp_base) {
            None => {},
            Some(info) => match info.origin {
                TypeOrigin::BuiltIn => {
                    assert(visited.take(visited.len() as int) =~= visited);
                },
                TypeOrigin::Unrecognized => {},
                TypeOrigin::OwningHeader { include_file } => {
                    match info.kind {
                        CppTypeKind::TypeAlias { target } => {
                            if fuel > 0 {
                                match spec_to_c_type(types, target, (fuel - 1) as nat) {
                                    Err(_) => {},
                                    Ok(meaning) => {
                                        lemma_no_duplicate_declarations(
                                            types,
                                            meaning,
                                            current,
                                            visited,
                                            (fuel - 1) as nat,
                                        );
                                        if spec_decl(
                                            types,
                                            meaning,
                                            current,
                                            visited,
                                            (fuel - 1) as nat,
                                        ) is Ok {
                                            let v2 = spec_decl(
                                                types,
                                                meaning,
                                                current,
                                                visited,
                                                (fuel - 1) as nat,
                                            )->Ok_0.1;
                                            lemma_push_if_new_extends(v2, t.base);
                                            let v3 = spec_push_if_new(v2, t.base);
                                            assert(v3.take(visited.len() as int)
                                                =~= v2.take(visited.len() as int));
                                        }
                                    },
                                }
                            }
                        },
                        _ => {
                            lemma_push_if_new_extends(visited, t.base);
                        },
                    }
                },
            },
        }
    }
}

/// Recording a name keeps the existing names as a prefix and preserves
/// distinctness.
proof fn lemma_push_if_new_extends(names: Seq<Seq<char>>, n: Seq<char>)
    ensures
        spec_push_if_new(names, n).len() >= names.len(),
        spec_push_if_new(names, n).take(names.len() as int) == names,
        distinct_names(names) ==> distinct_names(spec_push_if_new(names, n)),
{
    if contains_name(names, n) {
        assert(names.take(names.len() as int) =~= names);
    } else {
        assert(names.push(n).take(names.len() as int) =~= names);
        if distinct_names(names) {
            assert forall|i: int, j: int|
                0 <= i < j < names.push(n).len() implies names.push(n)[i] != names.push(n)[j] by {
                if j == names.len() {
                    assert(!(0 <= i < names.len() && names[i] == n));
                }
            }
        }
    }
}

/// Forward-declare correctness: a class type referenced from a unit other
/// than its owning header is emitted only as a forward declaration — the
/// struct tag and its typedef, with no sized payload.
pub proof fn lemma_forward_declare_correctness(
    types: Seq<(String, CppTypeInfo)>,
    t: CTypeExtV,
    current: Seq<char>,
    visited: Seq<Seq<char>>,
    fuel: nat,
    size: Option<u64>,
    header: String,
)
    requires
        !contains_name(visited, t.base),
        t.base != "wchar_t"@,
        spec_lookup(types, t.cpp_base) == Some(
            CppTypeInfo {
                kind: CppTypeKind::Class { size },
                origin: TypeOrigin::OwningHeader { include_file: header },
            },
        ),
        header@ != current,
        !spec_has_scope_sep(t.base),
    ensures
        spec_decl(types, t, current, visited, fuel) == Ok::<_, ErrorKind>(
            (
                spec_rename_suffix(
                    t,
                    spec_only_c_code(
                        ("struct QTCW_"@ + t.base + ";\n"@) + "typedef struct QTCW_"@ + t.base
                            + " "@ + t.base + ";\n\n"@,
                    ),
                ),
                spec_push_if_new(visited, t.base),
            ),
        ),
{
}

/// Emits the declaration of one type into the current unit, recording it
/// in the visited set so a second request returns empty text.
pub fn generate_type_declaration(
    model: &TypeModel,
    t: &CTypeExtended,
    current_include_file: &String,
    already_declared: &mut Vec<String>,
    fuel: u64,
) -> (r: Result<String, GenError>)
    ensures
        r is Ok <==> spec_decl(
            model.types@,
            t@,
            current_include_file@,
            name_views(old(already_declared)@),
            fuel as nat,
        ) is Ok,
        r is Ok ==> r->Ok_0@ == spec_decl(
            model.types@,
            t@,
            current_include_file@,
            name_views(old(already_declared)@),
            fuel as nat,
        )->Ok_0.0,
        r is Ok ==> name_views(final(already_declared)@) == spec_decl(
            model.types@,
            t@,
            current_include_file@,
            name_views(old(already_declared)@),
            fuel as nat,
        )->Ok_0.1,
        r is Err ==> r->Err_0.kind() == spec_decl(
            model.types@,
            t@,
            current_include_file@,
            name_views(old(already_declared)@),
            fuel as nat,
        )->Err_0 && final(already_declared)@ == old(already_declared)@,
    decreases fuel,
{
    if visited_contains(already_declared, &t.c_type.base) {
        return Ok(String::new());
    }
    let wchar = String::from_str("wchar_t");
    if t.c_type.base == wchar {
        return Ok(only_c_code(String::from_str("#include <wchar.h>\n")));
    }
    let info = match model.find(&t.cpp_base) {
        None => {
            return Err(GenError::MetadataError { entity: t.cpp_base.clone() });
        },
        Some(info) => info,
    };
    match &info.origin {
        TypeOrigin::BuiltIn => Ok(append_rename(t, String::new())),
        TypeOrigin::Unrecognized => Err(GenError::MetadataError { entity: t.cpp_base.clone() }),
        TypeOrigin::OwningHeader { include_file } => {
            let full = *include_file == *current_include_file;
            match &info.kind {
                CppTypeKind::Unknown => Err(
                    GenError::MetadataError { entity: t.cpp_base.clone() },
                ),
                CppTypeKind::Unsupported => Err(
                    GenError::MetadataError { entity: t.cpp_base.clone() },
                ),
                CppTypeKind::Primitive => {
                    push_if_new(already_declared, &t.c_type.base);
                    Ok(append_rename(t, String::new()))
                },
                CppTypeKind::Enum { values } => {
                    let d = only_c_code(enum_declaration(&t.c_type.base, values, full));
                    push_if_new(already_declared, &t.c_type.base);
                    Ok(append_rename(t, d))
                },
                CppTypeKind::Flags { .. } => {
                    let d = flags_declaration(&t.c_type.base);
                    push_if_new(already_declared, &t.c_type.base);
                    Ok(append_rename(t, d))
                },
                CppTypeKind::Class { size } => {
                    match struct_declaration(&t.c_type.base, size, full) {
                        Err(e) => Err(e),
                        Ok(d) => {
                            let d = only_c_code(d);
                            push_if_new(already_declared, &t.c_type.base);
                            Ok(append_rename(t, d))
                        },
                    }
                },
                CppTypeKind::TypeAlias { target } => {
                    if fuel == 0 {
                        return Err(GenError::MetadataError { entity: t.cpp_base.clone() });
                    }
                    let meaning = match to_c_type(model, target, fuel - 1) {
                        Err(e) => {
                            return Err(e);
                        },
                        Ok(meaning) => meaning,
                    };
                    match generate_type_declaration(
                        model,
                        &meaning,
                        current_include_file,
                        already_declared,
                        fuel - 1,
                    ) {
                        Err(e) => Err(e),
                        Ok(inner_text) => {
                            let mut line = String::from_str("typedef ");
                            let code = meaning.c_type.to_c_code();
                            line.append(code.as_str());
                            line.append(" ");
                            line.append(t.c_type.base.as_str());
                            line.append(";\n");
                            let wrapped = only_c_code(line);
                            let mut res = inner_text;
                            res.append(wrapped.as_str());
                            push_if_new(already_declared, &t.c_type.base);
                            Ok(append_rename(t, res))
                        },
                    }
                },
            }
        },
    }
}

} // verus!
