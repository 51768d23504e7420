//! The method wrapper emitter: synthesizes, for one wrapped C++ method,
//! the C function declaration and the C++ definition whose body performs
//! the actual call and the argument and return conversions.
use crate::model::{
    AllocationPlace, CArgumentRole, CFunctionArgument, CFunctionSignature, CppAndCMethod, CppType,
    CppTypeIndirection, ErrorKind, GenError, IndirectionChange, find_role, spec_find_role,
};
use crate::text::{join_strings, spec_join};
use vstd::prelude::*;
use vstd::string::*;

verus! {

/// The C spelling of one argument: its type followed by its name.
pub open spec fn spec_arg_code(a: CFunctionArgument) -> Seq<char> {
    a.argument_type.c_type.spec_to_c_code() + " "@ + a.name@
}

/// The comma-separated C argument list of a signature.
pub open spec fn spec_signature_args(args: Seq<CFunctionArgument>) -> Seq<char> {
    spec_join(args.map_values(|a: CFunctionArgument| spec_arg_code(a)), ", "@)
}

impl CFunctionSignature {
    /// Renders the C argument list of this signature.
    pub fn arguments_to_c_code(&self) -> (r: String)
        ensures
            r@ == spec_signature_args(self.arguments@),
    {
        let mut pieces: Vec<String> = Vec::new();
        let mut i: usize = 0;
        while i < self.arguments.len()
            invariant
                i <= self.arguments.len(),
                pieces@.len() == i,
                forall|k: int|
                    0 <= k < i ==> #[trigger] pieces@[k]@ == spec_arg_code(self.arguments@[k]),
            decreases self.arguments.len() - i,
        {
            let mut p = self.arguments[i].argument_type.c_type.to_c_code();
            p.append(" ");
            p.append(self.arguments[i].name.as_str());
            proof {
                assert(p@ =~= spec_arg_code(self.arguments@[i as int]));
            }
            pieces.push(p);
            i = i + 1;
        }
        proof {
            assert(pieces@.map_values(|s: String| s@) =~= self.arguments@.map_values(
                |a: CFunctionArgument| spec_arg_code(a),
            ));
        }
        join_strings(&pieces, ", ")
    }
}

/// The C++ spelling of a C++ type: its base name with the indirection mark.
pub open spec fn spec_cpp_code(t: CppType) -> Seq<char> {
    t.base@ + match t.indirection {
        CppTypeIndirection::Direct => Seq::<char>::empty(),
        CppTypeIndirection::Ptr => "*"@,
        CppTypeIndirection::Ref => "&"@,
    }
}

fn to_cpp_code(t: &CppType) -> (r: String)
    ensures
        r@ == spec_cpp_code(*t),
{
    let mut r = t.base.clone();
    match t.indirection {
        CppTypeIndirection::Direct => {},
        CppTypeIndirection::Ptr => {
            r.append("*");
        },
        CppTypeIndirection::Ref => {
            r.append("&");
        },
    }
    r
}

/// The class a method's scope names, if any.
pub open spec fn spec_scope_class(m: CppAndCMethod) -> Option<Seq<char>> {
    match m.cpp_method.scope {
        crate::model::CppMethodScope::Free => None,
        crate::model::CppMethodScope::ClassInstance { class_name } => Some(class_name@),
        crate::model::CppMethodScope::ClassStatic { class_name } => Some(class_name@),
    }
}

/// The C function declaration of one wrapped method, carrying the
/// export-visibility annotation.
pub open spec fn spec_header_code(m: CppAndCMethod) -> Seq<char> {
    m.c_signature.return_type.c_type.spec_to_c_code() + " QTCW_EXPORT "@ + m.c_name@ + "("@
        + spec_signature_args(m.c_signature.arguments@) + ");\n"@
}

/// The return-wrapping of an inner call expression, applied in fixed
/// order: indirection change, then bit-preserving reinterpretation, then
/// narrowing to an unsigned integer for flags, then (for stack place)
/// construction into the caller-supplied return-value slot.
pub open spec fn spec_convert_return_type(m: CppAndCMethod, expr: Seq<char>) -> Result<
    Seq<char>,
    ErrorKind,
> {
    let conv = m.c_signature.return_type.conversion;
    let step1: Result<Seq<char>, ErrorKind> = match conv.indirection_change {
        IndirectionChange::NoChange => Ok(expr),
        IndirectionChange::ValueToPointer => match m.allocation_place {
            AllocationPlace::Stack => Err(ErrorKind::Convention),
            AllocationPlace::Heap => if m.cpp_method.is_constructor {
                Ok(expr)
            } else {
                match m.cpp_method.return_type {
                    None => Err(ErrorKind::Metadata),
                    Some(rt) => Ok("new "@ + rt.base@ + "("@ + expr + ")"@),
                }
            },
        },
        IndirectionChange::ReferenceToPointer => Ok("&"@ + expr),
    };
    match step1 {
        Err(k) => Err(k),
        Ok(e1) => {
            let e2 = if conv.is_renamed {
                "reinterpret_cast<"@ + m.c_signature.return_type.c_type.spec_to_c_code() + ">("@
                    + e1 + ")"@
            } else {
                e1
            };
            let e3 = if conv.flags_to_integral {
                "uint("@ + e2 + ")"@
            } else {
                e2
            };
            if m.allocation_place == AllocationPlace::Stack && !m.cpp_method.is_constructor {
                match m.cpp_method.return_type {
                    None => Ok(e3),
                    Some(rt) => match spec_find_role(
                        m.c_signature.arguments@,
                        CArgumentRole::ReturnValueSlot,
                    ) {
                        None => Err(ErrorKind::Mapping),
                        Some(arg) => Ok("new("@ + arg.name@ + ") "@ + rt.base@ + "("@ + e3 + ")"@),
                    },
                }
            } else {
                Ok(e3)
            }
        },
    }
}

/// The C-side value handed to the C++ call for positional argument `i`:
/// dereferenced when its conversion changes indirection, reinterpreted
/// when renamed, reconstructed from the integer when it is a flags type.
pub open spec fn spec_argument_value(m: CppAndCMethod, i: int) -> Result<Seq<char>, ErrorKind> {
    match spec_find_role(
        m.c_signature.arguments@,
        CArgumentRole::PositionalArgument { index: i as u64 },
    ) {
        None => Err(ErrorKind::Mapping),
        Some(c_arg) => {
            let cpp_arg = m.cpp_method.arguments@[i];
            let s1 = match c_arg.argument_type.conversion.indirection_change {
                IndirectionChange::NoChange => c_arg.name@,
                IndirectionChange::ValueToPointer => "*"@ + c_arg.name@,
                IndirectionChange::ReferenceToPointer => "*"@ + c_arg.name@,
            };
            let s2 = if c_arg.argument_type.conversion.is_renamed {
                "reinterpret_cast<"@ + spec_cpp_code(cpp_arg) + ">("@ + s1 + ")"@
            } else {
                s1
            };
            let s3 = if c_arg.argument_type.conversion.flags_to_integral {
                cpp_arg.base@ + "("@ + s2 + ")"@
            } else {
                s2
            };
            Ok(s3)
        },
    }
}

/// Every positional argument of the method can be located among the C
/// arguments.
pub open spec fn spec_args_ok(m: CppAndCMethod) -> bool {
    forall|i: int|
        0 <= i < m.cpp_method.arguments@.len() ==> #[trigger] spec_argument_value(m, i) is Ok
}

/// The comma-separated values handed to the C++ call.
pub open spec fn spec_arguments_values(m: CppAndCMethod) -> Result<Seq<char>, ErrorKind> {
    if spec_args_ok(m) {
        Ok(
            spec_join(
                Seq::new(
                    m.cpp_method.arguments@.len(),
                    |i: int| spec_argument_value(m, i)->Ok_0,
                ),
                ", "@,
            ),
        )
    } else {
        Err(ErrorKind::Mapping)
    }
}

/// The full expression whose value the wrapper body returns or performs:
/// the reconstructed C++ call with all conversions applied.
pub open spec fn spec_returned_expression(m: CppAndCMethod) -> Result<Seq<char>, ErrorKind> {
    let inner: Result<Seq<char>, ErrorKind> = if m.cpp_method.is_destructor {
        match spec_find_role(m.c_signature.arguments@, CArgumentRole::ThisReceiver) {
            None => Err(ErrorKind::Mapping),
            Some(a) => Ok("qtcw_call_destructor("@ + a.name@ + ")"@),
        }
    } else {
        let target: Result<Seq<char>, ErrorKind> = if m.cpp_method.is_constructor {
            match spec_scope_class(m) {
                None => Err(ErrorKind::Convention),
                Some(cn) => match m.allocation_place {
                    AllocationPlace::Stack => match spec_find_role(
                        m.c_signature.arguments@,
                        CArgumentRole::ReturnValueSlot,
                    ) {
                        None => Err(ErrorKind::Mapping),
                        Some(a) => Ok("new("@ + a.name@ + ") "@ + cn),
                    },
                    AllocationPlace::Heap => Ok("new "@ + cn),
                },
            }
        } else {
            let scope_part: Result<Seq<char>, ErrorKind> = match m.cpp_method.scope {
                crate::model::CppMethodScope::Free => Ok(Seq::<char>::empty()),
                crate::model::CppMethodScope::ClassStatic { class_name } => Ok(
                    class_name@ + "::"@,
                ),
                crate::model::CppMethodScope::ClassInstance { class_name } => match spec_find_role(
                    m.c_signature.arguments@,
                    CArgumentRole::ThisReceiver,
                ) {
                    None => Err(ErrorKind::Mapping),
                    Some(a) => Ok(a.name@ + "->"@),
                },
            };
            match scope_part {
                Err(k) => Err(k),
                Ok(sp) => Ok(sp + m.cpp_method.name@),
            }
        };
        match target {
            Err(k) => Err(k),
            Ok(tg) => match spec_arguments_values(m) {
                Err(k) => Err(k),
                Ok(av) => Ok(tg + "("@ + av + ")"@),
            },
        }
    };
    match inner {
        Err(k) => Err(k),
        Ok(e) => spec_convert_return_type(m, e),
    }
}

/// The statement forming the wrapper body: a `delete` for heap-place
/// destructors, otherwise the returned expression with a `return` prefix
/// exactly when the C return type is not void.
pub open spec fn spec_source_body(m: CppAndCMethod) -> Result<Seq<char>, ErrorKind> {
    if m.cpp_method.is_destructor && m.allocation_place == AllocationPlace::Heap {
        match spec_find_role(m.c_signature.arguments@, CArgumentRole::ThisReceiver) {
            None => Err(ErrorKind::Mapping),
            Some(a) => Ok("delete "@ + a.name@ + ";\n"@),
        }
    } else {
        match spec_returned_expression(m) {
            Err(k) => Err(k),
            Ok(e) => Ok(
                (if m.c_signature.return_type.spec_is_void() {
                    Seq::<char>::empty()
                } else {
                    "return "@
                }) + e + ";\n"@,
            ),
        }
    }
}

/// The full C++ definition of one wrapper.
pub open spec fn spec_source_code(m: CppAndCMethod) -> Result<Seq<char>, ErrorKind> {
    match spec_source_body(m) {
        Err(k) => Err(k),
        Ok(b) => Ok(
            m.c_signature.return_type.c_type.spec_to_c_code() + " "@ + m.c_name@ + "("@
                + spec_signature_args(m.c_signature.arguments@) + ") {\n  "@ + b + "}\n\n"@,
        ),
    }
}

/// Declaration and definition of one wrapper, after checking the
/// allocation convention: a stack-place wrapper must have a void derived
/// C return type.
pub open spec fn spec_emit_wrapper(m: CppAndCMethod) -> Result<(Seq<char>, Seq<char>), ErrorKind> {
    if m.allocation_place == AllocationPlace::Stack && !m.c_signature.return_type.spec_is_void() {
        Err(ErrorKind::Convention)
    } else {
        match spec_source_code(m) {
            Err(k) => Err(k),
            Ok(src) => Ok((spec_header_code(m), src)),
        }
    }
}

impl CppAndCMethod {
    /// Renders the C declaration of this wrapper.
    pub fn header_code(&self) -> (r: String)
        ensures
            r@ == spec_header_code(*self),
    {
        let mut r = self.c_signature.return_type.c_type.to_c_code();
        r.append(" QTCW_EXPORT ");
        r.append(self.c_name.as_str());
        r.append("(");
        let args = self.c_signature.arguments_to_c_code();
        r.append(args.as_str());
        r.append(");\n");
        r
    }

    /// Applies the return conversions to the inner call expression.
    fn convert_return_type(&self, expression: String) -> (r: Result<String, GenError>)
        ensures
            r is Ok <==> spec_convert_return_type(*self, expression@) is Ok,
            r is Ok ==> r->Ok_0@ == spec_convert_return_type(*self, expression@)->Ok_0,
            r is Err ==> r->Err_0.kind() == spec_convert_return_type(*self, expression@)->Err_0
                && r->Err_0.entity_view() == self.c_name@,
    {
        let conv = self.c_signature.return_type.conversion;
        let mut result = expression;
        match conv.indirection_change {
            IndirectionChange::NoChange => {},
            IndirectionChange::ValueToPointer => {
                match self.allocation_place {
                    AllocationPlace::Stack => {
                        return Err(GenError::ConventionViolation { entity: self.c_name.clone() });
                    },
                    AllocationPlace::Heap => {
                        if !self.cpp_method.is_constructor {
                            match &self.cpp_method.return_type {
                                None => {
                                    return Err(
                                        GenError::MetadataError { entity: self.c_name.clone() },
                                    );
                                },
                                Some(rt) => {
                                    let mut e = String::from_str("new ");
                                    e.append(rt.base.as_str());
                                    e.append("(");
                                    e.append(result.as_str());
                                    e.append(")");
                                    result = e;
                                },
                            }
                        }
                    },
                }
            },
            IndirectionChange::ReferenceToPointer => {
                let mut e = String::from_str("&");
                e.append(result.as_str());
                result = e;
            },
        }
        if conv.is_renamed {
            let mut e = String::from_str("reinterpret_cast<");
            let code = self.c_signature.return_type.c_type.to_c_code();
            e.append(code.as_str());
            e.append(">(");
            e.append(result.as_str());
            e.append(")");
            result = e;
        }
        if conv.flags_to_integral {
            let mut e = String::from_str("uint(");
            e.append(result.as_str());
            e.append(")");
            result = e;
        }
        if self.allocation_place == AllocationPlace::Stack && !self.cpp_method.is_constructor {
            match &self.cpp_method.return_type {
                None => {},
                Some(rt) => {
                    match find_role(&self.c_signature.arguments, CArgumentRole::ReturnValueSlot) {
                        None => {
                            return Err(GenError::MappingError { entity: self.c_name.clone() });
                        },
                        Some(arg) => {
                            let mut e = String::from_str("new(");
                            e.append(arg.name.as_str());
                            e.append(") ");
                            e.append(rt.base.as_str());
                            e.append("(");
                            e.append(result.as_str());
                            e.append(")");
                            result = e;
                        },
                    }
                },
            }
        }
        Ok(result)
    }

    /// Renders the comma-separated values handed to the C++ call.
    fn arguments_values(&self) -> (r: Result<String, GenError>)
        ensures
            r is Ok <==> spec_arguments_values(*self) is Ok,
            r is Ok ==> r->Ok_0@ == spec_arguments_values(*self)->Ok_0,
            r is Err ==> r->Err_0.kind() == spec_arguments_values(*self)->Err_0
                && r->Err_0.entity_view() == self.c_name@,
    {
        let n = self.cpp_method.arguments.len();
        let mut pieces: Vec<String> = Vec::new();
        let mut i: usize = 0;
        while i < n
            invariant
                i <= n == self.cpp_method.arguments@.len(),
                pieces@.len() == i,
                forall|k: int|
                    0 <= k < i ==> #[trigger] spec_argument_value(*self, k) is Ok && pieces@[k]@
                        == spec_argument_value(*self, k)->Ok_0,
            decreases n - i,
        {
            let c_arg = match find_role(
                &self.c_signature.arguments,
                CArgumentRole::PositionalArgument { index: i as u64 },
            ) {
                None => {
                    assert(spec_argument_value(*self, i as int) is Err);
                    return Err(GenError::MappingError { entity: self.c_name.clone() });
                },
                Some(a) => a,
            };
            let mut p;
            match c_arg.argument_type.conversion.indirection_change {
                IndirectionChange::NoChange => {
                    p = c_arg.name.clone();
                },
                IndirectionChange::ValueToPointer => {
                    p = String::from_str("*");
                    p.append(c_arg.name.as_str());
                },
                IndirectionChange::ReferenceToPointer => {
                    p = String::from_str("*");
                    p.append(c_arg.name.as_str());
                },
            }
            if c_arg.argument_type.conversion.is_renamed {
                let mut e = String::from_str("reinterpret_cast<");
                let code = to_cpp_code(&self.cpp_method.arguments[i]);
                e.append(code.as_str());
                e.append(">(");
                e.append(p.as_str());
                e.append(")");
                p = e;
            }
            if c_arg.argument_type.conversion.flags_to_integral {
                let mut e = self.cpp_method.arguments[i].base.clone();
                e.append("(");
                e.append(p.as_str());
                e.append(")");
                p = e;
            }
            proof {
                assert(p@ =~= spec_argument_value(*self, i as int)->Ok_0);
            }
            pieces.push(p);
            i = i + 1;
        }
        proof {
            assert(pieces@.map_values(|s: String| s@) =~= Seq::new(
                self.cpp_method.arguments@.len(),
                |k: int| spec_argument_value(*self, k)->Ok_0,
            ));
        }
        Ok(join_strings(&pieces, ", "))
    }

    /// Builds the wrapped call expression with all conversions applied.
    fn returned_expression(&self) -> (r: Result<String, GenError>)
        ensures
            r is Ok <==> spec_returned_expression(*self) is Ok,
            r is Ok ==> r->Ok_0@ == spec_returned_expression(*self)->Ok_0,
            r is Err ==> r->Err_0.kind() == spec_returned_expression(*self)->Err_0
                && r->Err_0.entity_view() == self.c_name@,
    {
        let inner: String;
        if self.cpp_method.is_destructor {
            match find_role(&self.c_signature.arguments, CArgumentRole::ThisReceiver) {
                None => {
                    return Err(GenError::MappingError { entity: self.c_name.clone() });
                },
                Some(a) => {
                    let mut e = String::from_str("qtcw_call_destructor(");
                    e.append(a.name.as_str());
                    e.append(")");
                    inner = e;
                },
            }
        } else {
            let target: String;
            if self.cpp_method.is_constructor {
                let class_name = match &self.cpp_method.scope {
                    crate::model::CppMethodScope::Free => {
                        return Err(GenError::ConventionViolation { entity: self.c_name.clone() });
                    },
                    crate::model::CppMethodScope::ClassInstance { class_name } => class_name,
                    crate::model::CppMethodScope::ClassStatic { class_name } => class_name,
                };
                match self.allocation_place {
                    AllocationPlace::Stack => {
                        match find_role(
                            &self.c_signature.arguments,
                            CArgumentRole::ReturnValueSlot,
                        ) {
                            None => {
                                return Err(
                                    GenError::MappingError { entity: self.c_name.clone() },
                                );
                            },
                            Some(a) => {
                                let mut e = String::from_str("new(");
                                e.append(a.name.as_str());
                                e.append(") ");
                                e.append(class_name.as_str());
                                target = e;
                            },
                        }
                    },
                    AllocationPlace::Heap => {
                        let mut e = String::from_str("new ");
                        e.append(class_name.as_str());
                        target = e;
                    },
                }
            } else {
                let mut scope_part: String;
                match &self.cpp_method.scope {
                    crate::model::CppMethodScope::Free => {
                        scope_part = String::new();
                    },
                    crate::model::CppMethodScope::ClassStatic { class_name } => {
                        scope_part = class_name.clone();
                        scope_part.append("::");
                    },
                    crate::model::CppMethodScope::ClassInstance { .. } => {
                        match find_role(&self.c_signature.arguments, CArgumentRole::ThisReceiver) {
                            None => {
                                return Err(
                                    GenError::MappingError { entity: self.c_name.clone() },
                                );
                            },
                            Some(a) => {
                                scope_part = a.name.clone();
                                scope_part.append("->");
                            },
                        }
                    },
                }
                let mut e = scope_part;
                e.append(self.cpp_method.name.as_str());
                target = e;
            }
            let av = match self.arguments_values() {
                Err(err) => {
                    return Err(err);
                },
                Ok(av) => av,
            };
            let mut e = target;
            e.append("(");
            e.append(av.as_str());
            e.append(")");
            inner = e;
        }
        self.convert_return_type(inner)
    }

    /// Builds the statement forming the wrapper body.
    fn source_body(&self) -> (r: Result<String, GenError>)
        ensures
            r is Ok <==> spec_source_body(*self) is Ok,
            r is Ok ==> r->Ok_0@ == spec_source_body(*self)->Ok_0,
            r is Err ==> r->Err_0.kind() == spec_source_body(*self)->Err_0
                && r->Err_0.entity_view() == self.c_name@,
    {
        if self.cpp_method.is_destructor && self.allocation_place == AllocationPlace::Heap {
            match find_role(&self.c_signature.arguments, CArgumentRole::ThisReceiver) {
                None => Err(GenError::MappingError { entity: self.c_name.clone() }),
                Some(a) => {
                    let mut e = String::from_str("delete ");
                    e.append(a.name.as_str());
                    e.append(";\n");
                    Ok(e)
                },
            }
        } else {
            let expr = match self.returned_expression() {
                Err(err) => {
                    return Err(err);
                },
                Ok(expr) => expr,
            };
            let mut r = if self.c_signature.return_type.is_void() {
                String::new()
            } else {
                String::from_str("return ")
            };
            r.append(expr.as_str());
            r.append(";\n");
            Ok(r)
        }
    }

    /// Renders the full C++ definition of this wrapper.
    pub fn source_code(&self) -> (r: Result<String, GenError>)
        ensures
            r is Ok <==> spec_source_code(*self) is Ok,
            r is Ok ==> r->Ok_0@ == spec_source_code(*self)->Ok_0,
            r is Err ==> r->Err_0.kind() == spec_source_code(*self)->Err_0
                && r->Err_0.entity_view() == self.c_name@,
    {
        let body = match self.source_body() {
            Err(err) => {
                return Err(err);
            },
            Ok(body) => body,
        };
        let mut r = self.c_signature.return_type.c_type.to_c_code();
        r.append(" ");
        r.append(self.c_name.as_str());
        r.append("(");
        let args = self.c_signature.arguments_to_c_code();
        r.append(args.as_str());
        r.append(") {\n  ");
        r.append(body.as_str());
        r.append("}\n\n");
        Ok(r)
    }

    /// Emits declaration and definition of this wrapper, checking the
    /// allocation invariant first: a wrapped method with stack place must
    /// have a void C return type, and when it constructs its result — as
    /// a constructor, or by returning a value — a return-value slot
    /// argument must be present.  Metadata violating the first yields a
    /// convention violation; a missing slot is a mapping error; nothing
    /// is emitted in either case.
    pub fn emit_wrapper(&self) -> (r: Result<(String, String), GenError>)
        ensures
            r is Ok <==> spec_emit_wrapper(*self) is Ok,
            r is Ok ==> r->Ok_0.0@ == spec_emit_wrapper(*self)->Ok_0.0 && r->Ok_0.1@
                == spec_emit_wrapper(*self)->Ok_0.1,
            r is Err ==> r->Err_0.kind() == spec_emit_wrapper(*self)->Err_0
                && r->Err_0.entity_view() == self.c_name@,
            r is Ok && self.allocation_place == AllocationPlace::Stack
                ==> self.c_signature.return_type.spec_is_void(),
            r is Ok && self.allocation_place == AllocationPlace::Stack
                && !self.cpp_method.is_destructor && (self.cpp_method.is_constructor
                || self.cpp_method.return_type is Some) ==> spec_find_role(
                self.c_signature.arguments@,
                CArgumentRole::ReturnValueSlot,
            ) is Some,
    {
        if self.allocation_place == AllocationPlace::Stack
            && !self.c_signature.return_type.is_void() {
            return Err(GenError::ConventionViolation { entity: self.c_name.clone() });
        }
        let src = match self.source_code() {
            Err(err) => {
                return Err(err);
            },
            Ok(src) => src,
        };
        Ok((self.header_code(), src))
    }
}

} // verus!
