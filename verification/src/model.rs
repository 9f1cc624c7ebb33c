//! The structured values the transformation works on: the input declaration,
//! the two generated artifacts, and the terminal failures.
//!
//! Each executable type carries a spec-level model as its view; the
//! transformation's contracts are stated over these models.

use vstd::prelude::*;

verus! {

/// The visibility of a declaration, carried over to the descriptor verbatim.
pub enum Visibility {
    Private,
    Public,
    /// Any other scoped form, kept as its source text.
    Scoped(String),
}

/// The spec-level value of a [`Visibility`].
pub enum VisibilityModel {
    Private,
    Public,
    Scoped(Seq<char>),
}

impl View for Visibility {
    type V = VisibilityModel;

    open spec fn view(&self) -> VisibilityModel {
        match self {
            Visibility::Private => VisibilityModel::Private,
            Visibility::Public => VisibilityModel::Public,
            Visibility::Scoped(s) => VisibilityModel::Scoped(s@),
        }
    }
}

/// One parameter of a declaration, as the parser handed it over.
pub enum Param {
    /// An implicit receiver form (a self-style parameter).
    Receiver,
    /// A conventional typed binding: a binding pattern plus an explicit
    /// type, both kept as source text.
    Typed { pat: String, ty: String },
    /// Anything else the parser may have produced for a parameter slot.
    Other { text: String },
}

/// The spec-level value of a [`Param`].
pub enum ParamModel {
    Receiver,
    Typed { pat: Seq<char>, ty: Seq<char> },
    Other { text: Seq<char> },
}

impl View for Param {
    type V = ParamModel;

    open spec fn view(&self) -> ParamModel {
        match self {
            Param::Receiver => ParamModel::Receiver,
            Param::Typed { pat, ty } => ParamModel::Typed { pat: pat@, ty: ty@ },
            Param::Other { text } => ParamModel::Other { text: text@ },
        }
    }
}

/// The spec-level value of an optional piece of source text.
pub open spec fn text_opt(o: Option<String>) -> Option<Seq<char>> {
    match o {
        Option::Some(t) => Option::Some(t@),
        Option::None => Option::None,
    }
}

/// A parsed function-like declaration: the input of the transformation.
pub struct Declaration {
    /// The value-level name, by convention lower-case and
    /// underscore-delimited.
    pub name: String,
    /// The ordered parameter list.
    pub params: Vec<Param>,
    /// The return type, if one is written, as source text.
    pub return_type: Option<String>,
    /// The body: an opaque block, passed through verbatim.
    pub body: String,
    /// The declaration's visibility.
    pub visibility: Visibility,
    /// The generic-parameter declarations, in order, each as source text
    /// (bounds included).
    pub generics: Vec<String>,
    /// The extra where-constraints, if any, as source text.
    pub where_constraints: Option<String>,
}

/// The spec-level value of a [`Declaration`].
pub struct DeclarationModel {
    pub name: Seq<char>,
    pub params: Seq<ParamModel>,
    pub return_type: Option<Seq<char>>,
    pub body: Seq<char>,
    pub visibility: VisibilityModel,
    pub generics: Seq<Seq<char>>,
    pub where_constraints: Option<Seq<char>>,
}

impl View for Declaration {
    type V = DeclarationModel;

    open spec fn view(&self) -> DeclarationModel {
        DeclarationModel {
            name: self.name@,
            params: self.params@.map_values(|p: Param| p@),
            return_type: text_opt(self.return_type),
            body: self.body@,
            visibility: self.visibility@,
            generics: self.generics@.map_values(|g: String| g@),
            where_constraints: text_opt(self.where_constraints),
        }
    }
}

/// The one method signature a descriptor declares; the receiver is implicit
/// and not materialized as a parameter.
pub struct MethodSig {
    /// Same name as the declaration it came from.
    pub name: String,
    /// The remainder parameters, in original order and verbatim.
    pub params: Vec<Param>,
    /// The declaration's return type, verbatim.
    pub return_type: Option<String>,
}

/// The spec-level value of a [`MethodSig`].
pub struct MethodSigModel {
    pub name: Seq<char>,
    pub params: Seq<ParamModel>,
    pub return_type: Option<Seq<char>>,
}

impl View for MethodSig {
    type V = MethodSigModel;

    open spec fn view(&self) -> MethodSigModel {
        MethodSigModel {
            name: self.name@,
            params: self.params@.map_values(|p: Param| p@),
            return_type: text_opt(self.return_type),
        }
    }
}

/// The capability descriptor: an abstract method signature grouped under the
/// synthesized type-level name.
pub struct Descriptor {
    /// The synthesized type-level name.
    pub name: String,
    /// Copied from the declaration.
    pub visibility: Visibility,
    /// Copied from the declaration, unchanged.
    pub generics: Vec<String>,
    /// Copied from the declaration, unchanged.
    pub where_constraints: Option<String>,
    /// The single method the descriptor declares.
    pub method: MethodSig,
}

/// The spec-level value of a [`Descriptor`].
pub struct DescriptorModel {
    pub name: Seq<char>,
    pub visibility: VisibilityModel,
    pub generics: Seq<Seq<char>>,
    pub where_constraints: Option<Seq<char>>,
    pub method: MethodSigModel,
}

impl View for Descriptor {
    type V = DescriptorModel;

    open spec fn view(&self) -> DescriptorModel {
        DescriptorModel {
            name: self.name@,
            visibility: self.visibility@,
            generics: self.generics@.map_values(|g: String| g@),
            where_constraints: text_opt(self.where_constraints),
            method: self.method@,
        }
    }
}

/// The single binding of a descriptor to the receiver-designate's type.
pub struct Binding {
    /// The descriptor this binding implements: its synthesized name.
    pub descriptor_name: String,
    /// The type of the receiver-designate: the binding's implementing type.
    pub self_type: String,
    /// The same generic parameters the descriptor declares.
    pub generics: Vec<String>,
    /// The same where-constraints the descriptor carries.
    pub where_constraints: Option<String>,
    /// The method the binding provides: same signature as the descriptor's.
    pub method: MethodSig,
    /// The receiver-designate's binding pattern, rebound to the incoming
    /// receiver value at the top of the method body.
    pub receiver_pattern: String,
    /// The declaration's body, spliced in verbatim after the rebinding.
    pub body: String,
}

/// The spec-level value of a [`Binding`].
pub struct BindingModel {
    pub descriptor_name: Seq<char>,
    pub self_type: Seq<char>,
    pub generics: Seq<Seq<char>>,
    pub where_constraints: Option<Seq<char>>,
    pub method: MethodSigModel,
    pub receiver_pattern: Seq<char>,
    pub body: Seq<char>,
}

impl View for Binding {
    type V = BindingModel;

    open spec fn view(&self) -> BindingModel {
        BindingModel {
            descriptor_name: self.descriptor_name@,
            self_type: self.self_type@,
            generics: self.generics@.map_values(|g: String| g@),
            where_constraints: text_opt(self.where_constraints),
            method: self.method@,
            receiver_pattern: self.receiver_pattern@,
            body: self.body@,
        }
    }
}

/// The transformation's output: the untouched original next to the two
/// generated artifacts.
pub struct Transformed {
    /// The original declaration, retained unmodified (it stays
    /// independently callable).
    pub original: Declaration,
    /// The generated capability descriptor.
    pub descriptor: Descriptor,
    /// The generated binding of the descriptor to the receiver-designate's
    /// type.
    pub binding: Binding,
}

/// The spec-level value of a [`Transformed`].
pub struct TransformedModel {
    pub original: DeclarationModel,
    pub descriptor: DescriptorModel,
    pub binding: BindingModel,
}

impl View for Transformed {
    type V = TransformedModel;

    open spec fn view(&self) -> TransformedModel {
        TransformedModel {
            original: self.original@,
            descriptor: self.descriptor@,
            binding: self.binding@,
        }
    }
}

/// The terminal validation failures; each reports a structurally invalid
/// input declaration, and none is recoverable.
#[derive(Clone, Copy, PartialEq, Eq, Structural, Debug)]
pub enum Failure {
    /// The parameter list is empty: nothing can become the receiver.
    NoReceiverCandidate,
    /// Some parameter is an implicit receiver form.
    SelfNotAllowed,
    /// The first parameter is not a conventional typed binding.
    MalformedFirstParameter,
    /// The name holds a character outside the identifier repertoire.
    InvalidIdentifierCharset,
    /// The name consists of separators only and converts to an empty
    /// identifier.
    EmptySynthesizedName,
}

} // verus!
