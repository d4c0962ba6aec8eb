//! The abstract syntax the two code generators consume: interface
//! declarations (a named group of typed method signatures) and action
//! declarations (a contract entry-point function with a verbatim parameter
//! list and an opaque body).

use vstd::prelude::*;

verus! {

/// One typed parameter of an interface method: an identifier and the name
/// of its abstract type as written in the declaration.
#[derive(Debug, PartialEq, Eq)]
pub struct Parameter {
    /// The parameter's identifier.
    pub name: String,
    /// The abstract type name (`Integer`, `Boolean`, `Binary`, `String`,
    /// `Payment`, or anything else, which no table entry recognizes).
    pub ty: String,
}

/// The mathematical value of a [`Parameter`].
pub ghost struct ParameterV {
    /// The parameter's identifier.
    pub name: Seq<char>,
    /// The abstract type name.
    pub ty: Seq<char>,
}

impl View for Parameter {
    type V = ParameterV;

    open spec fn view(&self) -> ParameterV {
        ParameterV { name: self.name@, ty: self.ty@ }
    }
}

/// One method of an interface declaration: a name (also the runtime
/// dispatch key) and an ordered parameter list.
#[derive(Debug, PartialEq, Eq)]
pub struct MethodSignature {
    /// The method's name.
    pub name: String,
    /// The method's parameters, in declaration order.
    pub params: Vec<Parameter>,
}

/// The mathematical value of a [`MethodSignature`].
pub ghost struct MethodSignatureV {
    /// The method's name.
    pub name: Seq<char>,
    /// The method's parameters, in declaration order.
    pub params: Seq<ParameterV>,
}

impl View for MethodSignature {
    type V = MethodSignatureV;

    open spec fn view(&self) -> MethodSignatureV {
        MethodSignatureV {
            name: self.name@,
            params: self.params@.map_values(|p: Parameter| p@),
        }
    }
}

/// An interface declaration: a name (it becomes the generated namespace
/// identifier) and an ordered sequence of method signatures. Order is
/// preserved in the output; duplicate method names pass through unchecked.
#[derive(Debug, PartialEq, Eq)]
pub struct InterfaceDeclaration {
    /// The declaration's name.
    pub name: String,
    /// The declared methods, in declaration order.
    pub methods: Vec<MethodSignature>,
}

/// The mathematical value of an [`InterfaceDeclaration`].
pub ghost struct InterfaceDeclarationV {
    /// The declaration's name.
    pub name: Seq<char>,
    /// The declared methods, in declaration order.
    pub methods: Seq<MethodSignatureV>,
}

impl View for InterfaceDeclaration {
    type V = InterfaceDeclarationV;

    open spec fn view(&self) -> InterfaceDeclarationV {
        InterfaceDeclarationV {
            name: self.name@,
            methods: self.methods@.map_values(|m: MethodSignature| m@),
        }
    }
}

/// One parameter of an action declaration, copied verbatim: no
/// type-directed rewriting touches it, so the type is kept as source text.
#[derive(Debug, PartialEq, Eq)]
pub struct VerbatimParam {
    /// The parameter's identifier.
    pub name: String,
    /// The parameter's type, as written.
    pub ty: String,
}

/// The mathematical value of a [`VerbatimParam`].
pub ghost struct VerbatimParamV {
    /// The parameter's identifier.
    pub name: Seq<char>,
    /// The parameter's type, as written.
    pub ty: Seq<char>,
}

impl View for VerbatimParam {
    type V = VerbatimParamV;

    open spec fn view(&self) -> VerbatimParamV {
        VerbatimParamV { name: self.name@, ty: self.ty@ }
    }
}

/// An action declaration: a contract entry-point function. The body is a
/// block of statements the generator never inspects or rewrites; it is
/// carried as opaque source lines.
#[derive(Debug, PartialEq, Eq)]
pub struct ActionDeclaration {
    /// The function's name.
    pub name: String,
    /// The function's parameters, copied verbatim.
    pub params: Vec<VerbatimParam>,
    /// The function's body, one opaque statement per line.
    pub body: Vec<String>,
}

/// The mathematical value of an [`ActionDeclaration`].
pub ghost struct ActionDeclarationV {
    /// The function's name.
    pub name: Seq<char>,
    /// The function's parameters, copied verbatim.
    pub params: Seq<VerbatimParamV>,
    /// The function's body, one opaque statement per line.
    pub body: Seq<Seq<char>>,
}

impl View for ActionDeclaration {
    type V = ActionDeclarationV;

    open spec fn view(&self) -> ActionDeclarationV {
        ActionDeclarationV {
            name: self.name@,
            params: self.params@.map_values(|p: VerbatimParam| p@),
            body: self.body@.map_values(|s: String| s@),
        }
    }
}

} // verus!
