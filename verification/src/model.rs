//! The metadata model: C++ type descriptors, their C-side representations,
//! and the description of one wrapped method.
use vstd::prelude::*;

verus! {

/// One enumerator of a C++ enum: its name and its integer value.
#[derive(Clone, Debug)]
pub struct EnumValue {
    pub name: String,
    pub value: i64,
}

/// How many levels of indirection a C++ type spelling carries.
#[derive(Clone, Copy, PartialEq, Eq, Structural, Debug)]
pub enum CppTypeIndirection {
    Direct,
    Ptr,
    Ref,
}

/// A C++ type as it appears in a method signature: a base name plus its
/// indirection.
#[derive(Clone, Debug)]
pub struct CppType {
    pub base: String,
    pub indirection: CppTypeIndirection,
}

/// What kind of thing a named C++ type is.
#[derive(Clone, Debug)]
pub enum CppTypeKind {
    Primitive,
    Enum { values: Vec<EnumValue> },
    Flags { enum_name: String },
    Class { size: Option<u64> },
    TypeAlias { target: CppType },
    Unsupported,
    Unknown,
}

/// Where a named C++ type is declared.
#[derive(Clone, Debug)]
pub enum TypeOrigin {
    BuiltIn,
    OwningHeader { include_file: String },
    Unrecognized,
}

/// The full descriptor of one named C++ type.
#[derive(Clone, Debug)]
pub struct CppTypeInfo {
    pub kind: CppTypeKind,
    pub origin: TypeOrigin,
}

/// The immutable type model: qualified C++ type name to descriptor.
#[derive(Clone, Debug)]
pub struct TypeModel {
    pub types: Vec<(String, CppTypeInfo)>,
}

/// The descriptor found for the first entry whose name matches, if any.
pub open spec fn spec_lookup(types: Seq<(String, CppTypeInfo)>, name: Seq<char>) -> Option<
    CppTypeInfo,
>
    decreases types.len(),
{
    if types.len() == 0 {
        None
    } else if types[0].0@ == name {
        Some(types[0].1)
    } else {
        spec_lookup(types.drop_first(), name)
    }
}

impl TypeModel {
    /// The descriptor registered for `name`, if any.
    pub open spec fn spec_find(&self, name: Seq<char>) -> Option<CppTypeInfo> {
        spec_lookup(self.types@, name)
    }

    /// Looks a type name up in the model.
    pub fn find(&self, name: &String) -> (r: Option<&CppTypeInfo>)
        ensures
            match r {
                Some(info) => self.spec_find(name@) == Some(*info),
                None => self.spec_find(name@) is None,
            },
    {
        let mut i: usize = 0;
        proof {
            assert(self.types@.skip(0) =~= self.types@);
        }
        while i < self.types.len()
            invariant
                i <= self.types.len(),
                spec_lookup(self.types@.skip(i as int), name@) == spec_lookup(self.types@, name@),
            decreases self.types.len() - i,
        {
            assert(self.types@.skip(i as int)[0] == self.types@[i as int]);
            if self.types[i].0 == *name {
                return Some(&self.types[i].1);
            }
            proof {
                assert(self.types@.skip(i as int).drop_first() =~= self.types@.skip(i as int + 1));
            }
            i = i + 1;
        }
        None
    }
}

/// The C-side spelling of a type: base identifier plus pointer depth.
#[derive(Clone, Debug)]
pub struct CType {
    pub base: String,
    pub indirection: u64,
}

/// How a value of some type changes indirection when crossing the boundary.
#[derive(Clone, Copy, PartialEq, Eq, Structural, Debug)]
pub enum IndirectionChange {
    NoChange,
    ValueToPointer,
    ReferenceToPointer,
}

/// How values of a type cross the C++/C boundary.
#[derive(Clone, Copy, PartialEq, Eq, Structural, Debug)]
pub struct TypeConversion {
    pub indirection_change: IndirectionChange,
    pub is_renamed: bool,
    pub flags_to_integral: bool,
}

/// A C type together with its conversion descriptor and the C++ spelling
/// it stands for.
#[derive(Clone, Debug)]
pub struct CTypeExtended {
    pub c_type: CType,
    pub cpp_base: String,
    pub conversion: TypeConversion,
}

/// Spec-level image of a `CTypeExtended`: the same data over `Seq<char>`.
pub struct CTypeExtV {
    pub base: Seq<char>,
    pub indirection: nat,
    pub cpp_base: Seq<char>,
    pub conversion: TypeConversion,
}

impl View for CTypeExtended {
    type V = CTypeExtV;

    open spec fn view(&self) -> CTypeExtV {
        CTypeExtV {
            base: self.c_type.base@,
            indirection: self.c_type.indirection as nat,
            cpp_base: self.cpp_base@,
            conversion: self.conversion,
        }
    }
}

/// Where wrapper-constructed objects live.
#[derive(Clone, Copy, PartialEq, Eq, Structural, Debug)]
pub enum AllocationPlace {
    Stack,
    Heap,
}

/// The role one C-side argument plays in reconstructing the C++ call.
#[derive(Clone, Copy, PartialEq, Eq, Structural, Debug)]
pub enum CArgumentRole {
    PositionalArgument { index: u64 },
    ThisReceiver,
    ReturnValueSlot,
}

/// One argument of a generated C function.
#[derive(Clone, Debug)]
pub struct CFunctionArgument {
    pub name: String,
    pub argument_type: CTypeExtended,
    pub role: CArgumentRole,
}

/// The C-side signature of a generated function.
#[derive(Clone, Debug)]
pub struct CFunctionSignature {
    pub arguments: Vec<CFunctionArgument>,
    pub return_type: CTypeExtended,
}

/// Whether a method is free, or belongs to a class as an instance or a
/// static member.
#[derive(Clone, Debug)]
pub enum CppMethodScope {
    Free,
    ClassInstance { class_name: String },
    ClassStatic { class_name: String },
}

/// One C++ method as the metadata describes it.
#[derive(Clone, Debug)]
pub struct CppMethod {
    pub scope: CppMethodScope,
    pub name: String,
    pub is_constructor: bool,
    pub is_destructor: bool,
    pub is_protected: bool,
    pub is_signal: bool,
    pub arguments: Vec<CppType>,
    pub return_type: Option<CppType>,
}

/// A C++ method paired with its derived C-side name, signature and
/// allocation place.
#[derive(Clone, Debug)]
pub struct CppAndCMethod {
    pub cpp_method: CppMethod,
    pub c_name: String,
    pub c_signature: CFunctionSignature,
    pub allocation_place: AllocationPlace,
}

/// The error classes a generation run can fail with.  Every error carries
/// the offending type or method identity.
#[derive(Clone, Debug)]
pub enum GenError {
    /// A type with kind `Unsupported`/`Unknown` or origin `Unrecognized`
    /// reached translation or declaration emission.
    MetadataError { entity: String },
    /// A required C argument role is missing for a method being wrapped.
    MappingError { entity: String },
    /// A structural convention was violated, such as a stack-place wrapper
    /// with a non-void C return type.
    ConventionViolation { entity: String },
}

/// The class of an error, without its entity identity.
#[derive(Clone, Copy, PartialEq, Eq, Structural, Debug)]
pub enum ErrorKind {
    Metadata,
    Mapping,
    Convention,
}

impl GenError {
    /// Which error class this error belongs to.
    pub open spec fn kind(&self) -> ErrorKind {
        match self {
            GenError::MetadataError { .. } => ErrorKind::Metadata,
            GenError::MappingError { .. } => ErrorKind::Mapping,
            GenError::ConventionViolation { .. } => ErrorKind::Convention,
        }
    }

    /// The identity of the offending type or method.
    pub open spec fn entity_view(&self) -> Seq<char> {
        match self {
            GenError::MetadataError { entity } => entity@,
            GenError::MappingError { entity } => entity@,
            GenError::ConventionViolation { entity } => entity@,
        }
    }
}

/// The first argument carrying the wanted role, if any.
pub open spec fn spec_find_role(args: Seq<CFunctionArgument>, role: CArgumentRole) -> Option<
    CFunctionArgument,
>
    decreases args.len(),
{
    if args.len() == 0 {
        None
    } else if args[0].role == role {
        Some(args[0])
    } else {
        spec_find_role(args.drop_first(), role)
    }
}

/// Finds the first argument with the given role.
pub fn find_role(args: &Vec<CFunctionArgument>, role: CArgumentRole) -> (r: Option<
    &CFunctionArgument,
>)
    ensures
        match r {
            Some(a) => spec_find_role(args@, role) == Some(*a),
            None => spec_find_role(args@, role) is None,
        },
{
    let mut i: usize = 0;
    proof {
        assert(args@.skip(0) =~= args@);
    }
    while i < args.len()
        invariant
            i <= args.len(),
            spec_find_role(args@.skip(i as int), role) == spec_find_role(args@, role),
        decreases args.len() - i,
    {
        assert(args@.skip(i as int)[0] == args@[i as int]);
        if args[i].role == role {
            return Some(&args[i]);
        }
        proof {
            assert(args@.skip(i as int).drop_first() =~= args@.skip(i as int + 1));
        }
        i = i + 1;
    }
    None
}

impl CTypeExtended {
    /// The C `void` type with no conversion.
    pub open spec fn spec_is_void(&self) -> bool {
        &&& self.c_type.base@ == "void"@
        &&& self.c_type.indirection == 0
        &&& self.conversion == (TypeConversion {
            indirection_change: IndirectionChange::NoChange,
            is_renamed: false,
            flags_to_integral: false,
        })
    }

    /// Builds the C `void` type.
    pub fn void() -> (r: CTypeExtended)
        ensures
            r.spec_is_void(),
            r@.cpp_base == "void"@,
    {
        CTypeExtended {
            c_type: CType { base: String::from_str("void"), indirection: 0 },
            cpp_base: String::from_str("void"),
            conversion: TypeConversion {
                indirection_change: IndirectionChange::NoChange,
                is_renamed: false,
                flags_to_integral: false,
            },
        }
    }

    /// Tests whether this is the plain C `void` type.
    pub fn is_void(&self) -> (r: bool)
        ensures
            r == self.spec_is_void(),
    {
        let v = String::from_str("void");
        self.c_type.base == v && self.c_type.indirection == 0 && self.conversion
            == (TypeConversion {
            indirection_change: IndirectionChange::NoChange,
            is_renamed: false,
            flags_to_integral: false,
        })
    }
}

} // verus!
