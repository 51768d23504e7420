//! The type translator: maps one C++ type descriptor to its C-side
//! representation and a conversion descriptor describing how values of
//! that type cross the boundary.
use crate::model::{
    CTypeExtV, CTypeExtended, CType, CppType, CppTypeIndirection, CppTypeInfo, CppTypeKind,
    ErrorKind, GenError, IndirectionChange, TypeConversion, TypeModel, TypeOrigin, spec_lookup,
};
use vstd::prelude::*;

verus! {

/// How many pointer levels the C spelling carries for a C++ indirection.
pub open spec fn spec_c_depth(ind: CppTypeIndirection, is_class_value: bool) -> nat {
    match ind {
        CppTypeIndirection::Direct => if is_class_value {
            1
        } else {
            0
        },
        CppTypeIndirection::Ptr => 1,
        CppTypeIndirection::Ref => 1,
    }
}

/// The indirection change a C++ indirection imposes at the boundary.
pub open spec fn spec_ind_change(ind: CppTypeIndirection, is_class_value: bool) -> IndirectionChange {
    match ind {
        CppTypeIndirection::Direct => if is_class_value {
            IndirectionChange::ValueToPointer
        } else {
            IndirectionChange::NoChange
        },
        CppTypeIndirection::Ptr => IndirectionChange::NoChange,
        CppTypeIndirection::Ref => IndirectionChange::ReferenceToPointer,
    }
}

/// Composition of the indirection written at a use site with the one a
/// type alias target carries: at most one of the two may be present.
pub open spec fn spec_compose_ind(outer: CppTypeIndirection, inner: CppTypeIndirection) -> Option<
    CppTypeIndirection,
> {
    if outer == CppTypeIndirection::Direct {
        Some(inner)
    } else if inner == CppTypeIndirection::Direct {
        Some(outer)
    } else {
        None
    }
}

/// The translation of one C++ type to its C-side representation.
///
/// Fails with a metadata error when the type is not in the model, when its
/// kind or origin marks it as unusable, or when an alias chain does not
/// resolve within `fuel` steps.
pub open spec fn spec_to_c_type(
    types: Seq<(String, CppTypeInfo)>,
    t: CppType,
    fuel: nat,
) -> Result<CTypeExtV, ErrorKind>
    decreases fuel,
{
    match spec_lookup(types, t.base@) {
        None => Err(ErrorKind::Metadata),
        Some(info) => match info.kind {
            CppTypeKind::Unsupported => Err(ErrorKind::Metadata),
            CppTypeKind::Unknown => Err(ErrorKind::Metadata),
            CppTypeKind::Primitive => Ok(spec_plain_c_type(t, false)),
            CppTypeKind::Enum { .. } => Ok(spec_plain_c_type(t, false)),
            CppTypeKind::Flags { .. } => Ok(
                CTypeExtV {
                    conversion: TypeConversion {
                        flags_to_integral: true,
                        ..spec_plain_c_type(t, false).conversion
                    },
                    ..spec_plain_c_type(t, false)
                },
            ),
            CppTypeKind::Class { .. } => Ok(spec_plain_c_type(t, true)),
            CppTypeKind::TypeAlias { target } => {
                if fuel == 0 {
                    Err(ErrorKind::Metadata)
                } else {
                    match spec_compose_ind(t.indirection, target.indirection) {
                        None => Err(ErrorKind::Metadata),
                        Some(eff) => match spec_to_c_type(
                            types,
                            CppType { base: target.base, indirection: eff },
                            (fuel - 1) as nat,
                        ) {
                            Err(k) => Err(k),
                            Ok(inner) => Ok(
                                CTypeExtV {
                                    base: t.base@,
                                    indirection: inner.indirection,
                                    cpp_base: t.base@,
                                    conversion: TypeConversion {
                                        is_renamed: inner.conversion.is_renamed || t.base@
                                            != inner.cpp_base,
                                        ..inner.conversion
                                    },
                                },
                            ),
                        },
                    }
                }
            },
        },
    }
}

/// The identity C representation of a non-alias type: the same base name,
/// with the pointer depth and indirection change its use-site spelling
/// imposes.
pub open spec fn spec_plain_c_type(t: CppType, is_class: bool) -> CTypeExtV {
    CTypeExtV {
        base: t.base@,
        indirection: spec_c_depth(t.indirection, is_class),
        cpp_base: t.base@,
        conversion: TypeConversion {
            indirection_change: spec_ind_change(t.indirection, is_class),
            is_renamed: false,
            flags_to_integral: false,
        },
    }
}

/// Every failure of the translator is a metadata defect.
pub proof fn lemma_to_c_type_err_kind(types: Seq<(String, CppTypeInfo)>, t: CppType, fuel: nat)
    ensures
        spec_to_c_type(types, t, fuel) is Err ==> spec_to_c_type(types, t, fuel)->Err_0
            == ErrorKind::Metadata,
    decreases fuel,
{
    match spec_lookup(types, t.base@) {
        None => {},
        Some(info) => match info.kind {
            CppTypeKind::TypeAlias { target } => {
                if fuel > 0 {
                    match spec_compose_ind(t.indirection, target.indirection) {
                        None => {},
                        Some(eff) => {
                            lemma_to_c_type_err_kind(
                                types,
                                CppType { base: target.base, indirection: eff },
                                (fuel - 1) as nat,
                            );
                        },
                    }
                }
            },
            _ => {},
        },
    }
}

fn plain_c_type(t: &CppType, is_class: bool) -> (r: CTypeExtended)
    ensures
        r@ == spec_plain_c_type(*t, is_class),
{
    let depth: u64 = match t.indirection {
        CppTypeIndirection::Direct => if is_class {
            1
        } else {
            0
        },
        CppTypeIndirection::Ptr => 1,
        CppTypeIndirection::Ref => 1,
    };
    let change = match t.indirection {
        CppTypeIndirection::Direct => if is_class {
            IndirectionChange::ValueToPointer
        } else {
            IndirectionChange::NoChange
        },
        CppTypeIndirection::Ptr => IndirectionChange::NoChange,
        CppTypeIndirection::Ref => IndirectionChange::ReferenceToPointer,
    };
    CTypeExtended {
        c_type: CType { base: t.base.clone(), indirection: depth },
        cpp_base: t.base.clone(),
        conversion: TypeConversion {
            indirection_change: change,
            is_renamed: false,
            flags_to_integral: false,
        },
    }
}

/// Translates one C++ type to its C representation and conversion.
pub fn to_c_type(model: &TypeModel, t: &CppType, fuel: u64) -> (r: Result<CTypeExtended, GenError>)
    ensures
        r is Ok <==> spec_to_c_type(model.types@, *t, fuel as nat) is Ok,
        r is Ok ==> r->Ok_0@ == spec_to_c_type(model.types@, *t, fuel as nat)->Ok_0,
        r is Err ==> r->Err_0.kind() == spec_to_c_type(model.types@, *t, fuel as nat)->Err_0
            && r->Err_0.entity_view() == t.base@,
    decreases fuel,
{
    let info = match model.find(&t.base) {
        None => {
            return Err(GenError::MetadataError { entity: t.base.clone() });
        },
        Some(info) => info,
    };
    match &info.kind {
        CppTypeKind::Unsupported => Err(GenError::MetadataError { entity: t.base.clone() }),
        CppTypeKind::Unknown => Err(GenError::MetadataError { entity: t.base.clone() }),
        CppTypeKind::Primitive => Ok(plain_c_type(t, false)),
        CppTypeKind::Enum { .. } => Ok(plain_c_type(t, false)),
        CppTypeKind::Flags { .. } => {
            let mut r = plain_c_type(t, false);
            r.conversion.flags_to_integral = true;
            Ok(r)
        },
        CppTypeKind::Class { .. } => Ok(plain_c_type(t, true)),
        CppTypeKind::TypeAlias { target } => {
            if fuel == 0 {
                return Err(GenError::MetadataError { entity: t.base.clone() });
            }
            let eff: CppTypeIndirection = match (t.indirection, target.indirection) {
                (CppTypeIndirection::Direct, inner) => inner,
                (outer, CppTypeIndirection::Direct) => outer,
                _ => {
                    return Err(GenError::MetadataError { entity: t.base.clone() });
                },
            };
            let eff_type = CppType { base: target.base.clone(), indirection: eff };
            proof {
                lemma_to_c_type_err_kind(model.types@, eff_type, (fuel - 1) as nat);
            }
            match to_c_type(model, &eff_type, fuel - 1) {
                Err(_) => Err(GenError::MetadataError { entity: t.base.clone() }),
                Ok(inner) => {
                    let renamed = inner.conversion.is_renamed || !(t.base == inner.cpp_base);
                    Ok(
                        CTypeExtended {
                            c_type: CType { base: t.base.clone(), indirection: inner.c_type.indirection },
                            cpp_base: t.base.clone(),
                            conversion: TypeConversion {
                                indirection_change: inner.conversion.indirection_change,
                                is_renamed: renamed,
                                flags_to_integral: inner.conversion.flags_to_integral,
                            },
                        },
                    )
                },
            }
        },
    }
}

} // verus!
