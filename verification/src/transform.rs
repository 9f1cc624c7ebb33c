//! The transformation itself: validation and splitting of the parameter
//! list, name synthesis, and emission of the descriptor and the binding.

use vstd::prelude::*;

use crate::casing::camel_of;
use crate::casing::check_charset;
use crate::casing::to_camel_case;
use crate::casing::valid_charset;
use crate::model::Binding;
use crate::model::Declaration;
use crate::model::DeclarationModel;
use crate::model::Descriptor;
use crate::model::Failure;
use crate::model::MethodSig;
use crate::model::Param;
use crate::model::ParamModel;
use crate::model::Transformed;
use crate::model::TransformedModel;
use crate::model::Visibility;

verus! {

/// Some parameter of the list is an implicit receiver form.
pub open spec fn has_receiver(ps: Seq<ParamModel>) -> bool {
    exists|i: int| 0 <= i < ps.len() && (#[trigger] ps[i]) is Receiver
}

/// The terminal failure the parameter list is rejected with, if any, in the
/// order the rules are checked: an empty list leaves no receiver candidate,
/// an implicit receiver form anywhere contradicts the transformation's own
/// receiver, and a first parameter that is not a conventional typed binding
/// is an internal shape error.
pub open spec fn split_failure(ps: Seq<ParamModel>) -> Option<Failure> {
    if ps.len() == 0 {
        Option::Some(Failure::NoReceiverCandidate)
    } else if has_receiver(ps) {
        Option::Some(Failure::SelfNotAllowed)
    } else if !(ps[0] is Typed) {
        Option::Some(Failure::MalformedFirstParameter)
    } else {
        Option::None
    }
}

/// The spec-level parameter list of an executable one.
pub open spec fn params_model(ps: Seq<Param>) -> Seq<ParamModel> {
    ps.map_values(|p: Param| p@)
}

/// Copies one parameter; the copy is equal to the original.
fn copy_param(p: &Param) -> (r: Param)
    ensures
        r == *p,
{
    match p {
        Param::Receiver => Param::Receiver,
        Param::Typed { pat, ty } => Param::Typed { pat: pat.clone(), ty: ty.clone() },
        Param::Other { text } => Param::Other { text: text.clone() },
    }
}

/// Copies every parameter but the first, keeping the original order.
fn copy_remainder(params: &Vec<Param>) -> (r: Vec<Param>)
    requires
        params@.len() >= 1,
    ensures
        r@ == params@.drop_first(),
{
    let n: usize = params.len();
    let mut r: Vec<Param> = Vec::new();
    let mut j: usize = 1;
    while j < n
        invariant
            1 <= j <= n,
            n == params@.len(),
            r@ =~= params@.subrange(1, j as int),
        decreases n - j,
    {
        let p = copy_param(&params[j]);
        r.push(p);
        j = j + 1;
    }
    proof {
        assert(r@ =~= params@.drop_first());
    }
    r
}

/// Copies a list of source-text fragments.
fn copy_texts(v: &Vec<String>) -> (r: Vec<String>)
    ensures
        r@ == v@,
{
    let n: usize = v.len();
    let mut r: Vec<String> = Vec::new();
    let mut j: usize = 0;
    while j < n
        invariant
            j <= n,
            n == v@.len(),
            r@ =~= v@.subrange(0, j as int),
        decreases n - j,
    {
        r.push(v[j].clone());
        j = j + 1;
    }
    proof {
        assert(r@ =~= v@);
    }
    r
}

/// Copies an optional source-text fragment.
fn copy_text_opt(o: &Option<String>) -> (r: Option<String>)
    ensures
        r == *o,
{
    match o {
        Option::Some(t) => Option::Some(t.clone()),
        Option::None => Option::None,
    }
}

/// Copies a visibility.
fn copy_visibility(v: &Visibility) -> (r: Visibility)
    ensures
        r == *v,
{
    match v {
        Visibility::Private => Visibility::Private,
        Visibility::Public => Visibility::Public,
        Visibility::Scoped(s) => Visibility::Scoped(s.clone()),
    }
}

/// Validates the parameter list and, on success, splits it into the
/// receiver-designate (the first parameter) and the ordered remainder.
pub fn validate_and_split(params: &Vec<Param>) -> (r: Result<(Param, Vec<Param>), Failure>)
    ensures
        split_failure(params_model(params@)) matches Some(f) ==> r == Err::<(Param, Vec<Param>),
            Failure,
        >(f),
        split_failure(params_model(params@)) is None ==> (r matches Ok(pair)
            && pair.0@ == params_model(params@)[0] && params_model(pair.1@) == params_model(
            params@,
        ).drop_first()),
{
    let ghost ps = params_model(params@);
    let n: usize = params.len();
    if n == 0 {
        return Err(Failure::NoReceiverCandidate);
    }
    let mut j: usize = 0;
    while j < n
        invariant
            j <= n,
            n == params@.len(),
            ps == params_model(params@),
            forall|i: int| 0 <= i < j ==> !((#[trigger] ps[i]) is Receiver),
        decreases n - j,
    {
        if matches!(&params[j], Param::Receiver) {
            proof {
                assert(ps[j as int] is Receiver);
            }
            return Err(Failure::SelfNotAllowed);
        }
        j = j + 1;
    }
    proof {
        assert(!has_receiver(ps));
    }
    match &params[0] {
        Param::Typed { pat: _, ty: _ } => {
            let first = copy_param(&params[0]);
            let rest = copy_remainder(params);
            proof {
                assert(ps[0] is Typed);
                assert(params_model(rest@) =~= ps.drop_first());
            }
            Ok((first, rest))
        },
        _ => {
            proof {
                assert(!(ps[0] is Typed));
            }
            Err(Failure::MalformedFirstParameter)
        },
    }
}

/// Derives the type-level identifier from a declaration's name, rejecting a
/// name outside the identifier repertoire and a name whose conversion comes
/// out empty (a name of separators only).
pub fn synthesize_name(name: &str) -> (r: Result<String, Failure>)
    ensures
        !valid_charset(name@) ==> r == Err::<String, Failure>(Failure::InvalidIdentifierCharset),
        valid_charset(name@) && camel_of(name@).len() == 0 ==> r == Err::<String, Failure>(
            Failure::EmptySynthesizedName,
        ),
        valid_charset(name@) && camel_of(name@).len() > 0 ==> (r matches Ok(n) && n@ == camel_of(
            name@,
        )),
{
    if !check_charset(name) {
        return Err(Failure::InvalidIdentifierCharset);
    }
    let converted = to_camel_case(name);
    if converted.as_str().is_empty() {
        return Err(Failure::EmptySynthesizedName);
    }
    Ok(converted)
}

/// The terminal failure a declaration is rejected with, if any: first the
/// parameter-list rules, then the name rules.
pub open spec fn validation_failure(d: DeclarationModel) -> Option<Failure> {
    match split_failure(d.params) {
        Option::Some(f) => Option::Some(f),
        Option::None => if !valid_charset(d.name) {
            Option::Some(Failure::InvalidIdentifierCharset)
        } else if camel_of(d.name).len() == 0 {
            Option::Some(Failure::EmptySynthesizedName)
        } else {
            Option::None
        },
    }
}

/// What a successful transformation of `d` produces.
///
/// The original is retained unmodified.  The descriptor carries the
/// synthesized name, the declaration's visibility, generics and constraints
/// unchanged, and one method: the declaration's name, the remainder
/// parameters verbatim, and the declaration's return type.  The binding
/// implements the descriptor for the receiver-designate's type with the same
/// generics, constraints and method signature, rebinding the
/// receiver-designate's pattern before the verbatim body.
pub open spec fn transformed_correct(d: DeclarationModel, t: TransformedModel) -> bool {
    &&& t.original == d
    &&& t.descriptor.name == camel_of(d.name)
    &&& t.descriptor.visibility == d.visibility
    &&& t.descriptor.generics == d.generics
    &&& t.descriptor.where_constraints == d.where_constraints
    &&& t.descriptor.method.name == d.name
    &&& t.descriptor.method.params == d.params.drop_first()
    &&& t.descriptor.method.return_type == d.return_type
    &&& t.binding.descriptor_name == t.descriptor.name
    &&& t.binding.self_type == d.params[0]->ty
    &&& t.binding.generics == t.descriptor.generics
    &&& t.binding.where_constraints == t.descriptor.where_constraints
    &&& t.binding.method == t.descriptor.method
    &&& t.binding.receiver_pattern == d.params[0]->pat
    &&& t.binding.body == d.body
}

/// The whole transformation: validates the declaration, synthesizes the
/// type-level name, and emits the descriptor and the binding next to the
/// untouched original.  Every failure is terminal, and nothing is emitted on
/// failure.
pub fn transform(decl: Declaration) -> (r: Result<Transformed, Failure>)
    ensures
        validation_failure(decl@) matches Some(f) ==> r == Err::<Transformed, Failure>(f),
        validation_failure(decl@) is None ==> (r matches Ok(t) && transformed_correct(decl@, t@)),
{
    let split = validate_and_split(&decl.params);
    let (first, rest) = match split {
        Ok(pair) => pair,
        Err(f) => {
            return Err(f);
        },
    };
    let (receiver_pat, receiver_ty) = match first {
        Param::Typed { pat, ty } => (pat, ty),
        _ => {
            proof {
                assert(false);
            }
            return Err(Failure::MalformedFirstParameter);
        },
    };
    let synthesized = match synthesize_name(decl.name.as_str()) {
        Ok(n) => n,
        Err(f) => {
            return Err(f);
        },
    };
    let descriptor = Descriptor {
        name: synthesized.clone(),
        visibility: copy_visibility(&decl.visibility),
        generics: copy_texts(&decl.generics),
        where_constraints: copy_text_opt(&decl.where_constraints),
        method: MethodSig {
            name: decl.name.clone(),
            params: rest,
            return_type: copy_text_opt(&decl.return_type),
        },
    };
    let binding = Binding {
        descriptor_name: synthesized,
        self_type: receiver_ty,
        generics: copy_texts(&decl.generics),
        where_constraints: copy_text_opt(&decl.where_constraints),
        method: MethodSig {
            name: decl.name.clone(),
            params: copy_remainder(&decl.params),
            return_type: copy_text_opt(&decl.return_type),
        },
        receiver_pattern: receiver_pat,
        body: decl.body.clone(),
    };
    let result = Transformed { original: decl, descriptor, binding };
    proof {
        assert(result@.descriptor.method.params =~= result@.original.params.drop_first());
        assert(result@.binding.method.params =~= result@.original.params.drop_first());
        assert(transformed_correct(result@.original, result@));
    }
    Ok(result)
}

/// For every declaration that passes validation, the generated binding
/// declares exactly the generic parameter list the descriptor declares.
pub proof fn lemma_binding_generics_match(d: DeclarationModel, t: TransformedModel)
    requires
        validation_failure(d) is None,
        transformed_correct(d, t),
    ensures
        t.binding.generics == t.descriptor.generics,
{
}

} // verus!
