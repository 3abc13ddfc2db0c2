//! Reading the annotations of a declaration, and the type expression that
//! names a declared type.
//!
//! Where several annotations share a name, the first one in source order is
//! the one that counts; the later ones are not looked at.

use vstd::prelude::*;

use crate::ast::{
    Attribute, AttributeView, Generics, GenericsView, MetaItemKind, MetaItemKindView, Ty, TyView,
};

verus! {

/// The first annotation with the given name, if there is one.
pub open spec fn first_named(attrs: Seq<AttributeView>, name: Seq<char>) -> Option<AttributeView>
    decreases attrs.len(),
{
    if attrs.len() == 0 {
        None
    } else if attrs[0].name == name {
        Some(attrs[0])
    } else {
        first_named(attrs.drop_first(), name)
    }
}

/// Whether some annotation has the given name.
pub open spec fn has_named(attrs: Seq<AttributeView>, name: Seq<char>) -> bool {
    exists|i: int| 0 <= i < attrs.len() && (#[trigger] attrs[i]).name == name
}

/// The string that the first annotation with the given name carries. There is
/// none where no annotation has that name, and none where the first that has
/// it carries anything but one string.
pub open spec fn str_value_of(attrs: Seq<AttributeView>, name: Seq<char>) -> Option<Seq<char>> {
    match first_named(attrs, name) {
        Some(AttributeView { value: MetaItemKindView::NameValue(text), .. }) => Some(text),
        _ => None,
    }
}

/// The identifiers that the first annotation with the given name lists, in
/// the order in which it lists them. There are none where no annotation has
/// that name, and none where the first that has it carries anything but a
/// list.
pub open spec fn list_value_of(attrs: Seq<AttributeView>, name: Seq<char>) -> Option<
    Seq<Seq<char>>,
> {
    match first_named(attrs, name) {
        Some(AttributeView { value: MetaItemKindView::List(names), .. }) => Some(names),
        _ => None,
    }
}

/// The type expression that names the declared type `name` with the
/// parameters of `generics` as its arguments.
pub open spec fn struct_ty_of(name: Seq<char>, generics: GenericsView) -> TyView {
    TyView { name, lifetimes: generics.lifetimes, ty_params: generics.ty_params }
}

/// `first_named` finds the annotation at `i` exactly when `i` is the least
/// index of an annotation with that name, and finds nothing exactly when no
/// annotation has the name.
pub proof fn lemma_first_named(attrs: Seq<AttributeView>, name: Seq<char>)
    ensures
        first_named(attrs, name) is None <==> !has_named(attrs, name),
        first_named(attrs, name) is None <==> forall|i: int|
            0 <= i < attrs.len() ==> (#[trigger] attrs[i]).name != name,
        forall|i: int|
            0 <= i < attrs.len() && (#[trigger] attrs[i]).name == name && (forall|j: int|
                0 <= j < i ==> (#[trigger] attrs[j]).name != name) ==> first_named(attrs, name)
                == Some(attrs[i]),
    decreases attrs.len(),
{
    if attrs.len() > 0 {
        let rest = attrs.drop_first();
        lemma_first_named(rest, name);
        assert forall|i: int| 0 <= i < rest.len() implies #[trigger] rest[i] == attrs[i + 1] by {}
        if attrs[0].name != name {
            if first_named(rest, name) is None {
                assert forall|i: int| 0 <= i < attrs.len() implies (#[trigger] attrs[i]).name
                    != name by {
                    if i > 0 {
                        assert(rest[i - 1] == attrs[i]);
                    }
                }
            } else {
                if forall|i: int| 0 <= i < attrs.len() ==> (#[trigger] attrs[i]).name != name {
                    assert forall|i: int| 0 <= i < rest.len() implies (#[trigger] rest[i]).name
                        != name by {
                        assert(rest[i] == attrs[i + 1]);
                    }
                }
            }
            assert forall|i: int|
                0 <= i < attrs.len() && (#[trigger] attrs[i]).name == name && (forall|j: int|
                    0 <= j < i ==> (#[trigger] attrs[j]).name != name) implies first_named(
                attrs,
                name,
            ) == Some(attrs[i]) by {
                assert(i > 0);
                assert(rest[i - 1] == attrs[i]);
                assert forall|j: int| 0 <= j < i - 1 implies (#[trigger] rest[j]).name != name by {
                    assert(rest[j] == attrs[j + 1]);
                }
            }
        } else {
            assert forall|i: int|
                0 <= i < attrs.len() && (#[trigger] attrs[i]).name == name && (forall|j: int|
                    0 <= j < i ==> (#[trigger] attrs[j]).name != name) implies first_named(
                attrs,
                name,
            ) == Some(attrs[i]) by {
                if i > 0 {
                    assert(attrs[0].name != name);
                }
            }
        }
    }
}

/// A copy of a list of strings.
pub fn clone_strings(strings: &Vec<String>) -> (copy: Vec<String>)
    ensures
        copy.deep_view() == strings.deep_view(),
{
    let copy = strings.clone();
    assert(copy.deep_view() =~= strings.deep_view());
    copy
}

impl Clone for Generics {
    fn clone(&self) -> (copy: Self)
        ensures
            copy@ == self@,
    {
        Generics {
            lifetimes: clone_strings(&self.lifetimes),
            ty_params: clone_strings(&self.ty_params),
        }
    }
}

/// The first annotation named `name`, if there is one.
pub fn attr_with_name<'a>(attrs: &'a Vec<Attribute>, name: &str) -> (found: Option<&'a Attribute>)
    ensures
        found.deep_view() == first_named(attrs.deep_view(), name@),
{
    let wanted = name.to_owned();
    let mut i: usize = 0;
    assert(attrs.deep_view().skip(0) =~= attrs.deep_view());
    while i < attrs.len()
        invariant
            i <= attrs.len(),
            wanted@ == name@,
            first_named(attrs.deep_view(), name@) == first_named(
                attrs.deep_view().skip(i as int),
                name@,
            ),
        decreases attrs.len() - i,
    {
        let ghost rest = attrs.deep_view().skip(i as int);
        assert(rest[0] == attrs[i as int]@);
        if attrs[i].name == wanted {
            return Some(&attrs[i]);
        }
        assert(rest.drop_first() =~= attrs.deep_view().skip(i + 1));
        i = i + 1;
    }
    None
}

/// The string that the first annotation named `name` carries, if it carries
/// one.
pub fn str_value_of_attr_with_name(attrs: &Vec<Attribute>, name: &str) -> (value: Option<String>)
    ensures
        value.deep_view() == str_value_of(attrs.deep_view(), name@),
{
    match attr_with_name(attrs, name) {
        Some(attr) => match &attr.value {
            MetaItemKind::NameValue(text) => Some(text.clone()),
            _ => None,
        },
        None => None,
    }
}

/// The identifiers that the first annotation named `name` lists, if it
/// carries a list.
pub fn list_value_of_attr_with_name(attrs: &Vec<Attribute>, name: &str) -> (value: Option<
    Vec<String>,
>)
    ensures
        value.deep_view() == list_value_of(attrs.deep_view(), name@),
{
    match attr_with_name(attrs, name) {
        Some(attr) => match &attr.value {
            MetaItemKind::List(names) => Some(clone_strings(names)),
            _ => None,
        },
        None => None,
    }
}

/// The type expression that names the declared type `name` with the
/// parameters of `generics` as its arguments.
pub fn struct_ty(name: &str, generics: &Generics) -> (ty: Ty)
    ensures
        ty@ == struct_ty_of(name@, generics@),
{
    Ty {
        name: name.to_owned(),
        lifetimes: clone_strings(&generics.lifetimes),
        ty_params: clone_strings(&generics.ty_params),
    }
}

} // verus!
