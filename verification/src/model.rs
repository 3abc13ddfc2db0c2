//! The model of one annotated struct: its table name, its primary key and
//! the records of its fields.
//!
//! A model is built once, from a declaration, and not changed afterwards.
//! Two annotations of the declaration are read. `table_name = "..."` names
//! the table; without it the table name is inferred from the identifier.
//! `primary_key(a, b)` lists the primary key columns; without it the primary
//! key is the single column `id`. All other annotations are passed over.

use vstd::prelude::*;

use crate::ast::{
    Annotatable, AnnotatableView, Generics, GenericsView, ItemKind, ItemKindView, ItemView, Ty,
    TyView,
};
use crate::attr::{Attr, AttrView};
use crate::naming::{infer_table_name, table_name_of};
use crate::util::{
    has_named, lemma_first_named, list_value_of, list_value_of_attr_with_name, str_value_of,
    str_value_of_attr_with_name, struct_ty, struct_ty_of,
};

verus! {

/// The name of the annotation that names the table.
pub open spec fn table_name_annotation() -> Seq<char> {
    "table_name"@
}

/// The name of the annotation that lists the primary key columns.
pub open spec fn primary_key_annotation() -> Seq<char> {
    "primary_key"@
}

/// The primary key of a declaration that lists none: the one column `id`.
pub open spec fn default_primary_key() -> Seq<Seq<char>> {
    seq!["id"@]
}

/// What is inferred from one annotated struct.
pub struct Model {
    ty: Ty,
    attrs: Vec<Attr>,
    name: String,
    generics: Generics,
    primary_key_names: Vec<String>,
    table_name_from_annotation: Option<String>,
}

/// What a [`Model`] stands for.
pub struct ModelView {
    /// The type expression that names the struct with its own parameters.
    pub ty: TyView,
    /// The records of the fields, in declaration order.
    pub attrs: Seq<AttrView>,
    /// The identifier of the struct.
    pub name: Seq<char>,
    /// The generic parameters of the struct.
    pub generics: GenericsView,
    /// The primary key columns, in the order in which they were listed.
    pub primary_key_names: Seq<Seq<char>>,
    /// The table name that an annotation gave, if one did.
    pub table_name_from_annotation: Option<Seq<char>>,
}

impl ModelView {
    /// The table name: the one that an annotation gave, else the one
    /// inferred from the identifier.
    pub open spec fn table_name(self) -> Seq<char> {
        match self.table_name_from_annotation {
            Some(name) => name,
            None => table_name_of(self.name),
        }
    }

    /// What holds of the model of a declaration that the host's grammar
    /// admits: the identifier is not empty, and there is at least one primary
    /// key column.
    pub open spec fn well_formed(self) -> bool {
        &&& self.name.len() > 0
        &&& self.primary_key_names.len() > 0
    }

    /// Whether `i` is the position of the first field record whose column
    /// name is `name`.
    pub open spec fn is_first_named(self, name: Seq<char>, i: int) -> bool {
        &&& 0 <= i < self.attrs.len()
        &&& self.attrs[i].column_name == name
        &&& forall|j: int| 0 <= j < i ==> (#[trigger] self.attrs[j]).column_name != name
    }

    /// Whether some field record has the column name `name`.
    pub open spec fn has_column(self, name: Seq<char>) -> bool {
        exists|i: int| 0 <= i < self.attrs.len() && (#[trigger] self.attrs[i]).column_name == name
    }

    /// The token groups of the field records, one per field, in declaration
    /// order.
    pub open spec fn field_tokens(self) -> Seq<Seq<Seq<char>>> {
        Seq::new(self.attrs.len(), |i: int| self.attrs[i].stable_macro_tokens)
    }
}

/// An item as the host's grammar admits it: its identifier is not empty,
/// and where it lists primary key columns, it lists at least one.
pub open spec fn well_formed_item(item: ItemView) -> bool {
    &&& item.ident.len() > 0
    &&& list_value_of(item.attrs, primary_key_annotation()) matches Some(names) ==> names.len()
        > 0
}

/// The model of an item: there is one exactly for a struct whose fields
/// could be read.
pub open spec fn model_of_item(item: ItemView) -> Option<ModelView> {
    match item.node {
        ItemKindView::Struct(generics, fields) => Some(
            ModelView {
                ty: struct_ty_of(item.ident, generics),
                attrs: fields,
                name: item.ident,
                generics,
                primary_key_names: match list_value_of(item.attrs, primary_key_annotation()) {
                    Some(names) => names,
                    None => default_primary_key(),
                },
                table_name_from_annotation: str_value_of(item.attrs, table_name_annotation()),
            },
        ),
        ItemKindView::Other => None,
    }
}

/// The model of what an annotation was attached to: there is none for
/// anything but a free-standing item.
pub open spec fn model_of(annotatable: AnnotatableView) -> Option<ModelView> {
    match annotatable {
        AnnotatableView::Item(item) => model_of_item(item),
        _ => None,
    }
}

impl View for Model {
    type V = ModelView;

    closed spec fn view(&self) -> ModelView {
        ModelView {
            ty: self.ty@,
            attrs: self.attrs.deep_view(),
            name: self.name@,
            generics: self.generics@,
            primary_key_names: self.primary_key_names.deep_view(),
            table_name_from_annotation: self.table_name_from_annotation.deep_view(),
        }
    }
}

impl DeepView for Model {
    type V = ModelView;

    open spec fn deep_view(&self) -> ModelView {
        self@
    }
}

/// A copy of a list of field records.
fn clone_attrs(attrs: &Vec<Attr>) -> (copy: Vec<Attr>)
    ensures
        copy.deep_view() == attrs.deep_view(),
{
    let mut copy: Vec<Attr> = Vec::new();
    let mut i: usize = 0;
    while i < attrs.len()
        invariant
            i <= attrs.len(),
            copy.len() == i,
            forall|j: int| 0 <= j < i ==> (#[trigger] copy[j])@ == attrs[j]@,
        decreases attrs.len() - i,
    {
        copy.push(attrs[i].clone());
        i = i + 1;
    }
    assert(copy.deep_view() =~= attrs.deep_view());
    copy
}

impl Model {
    /// Builds the model of what an annotation was attached to.
    ///
    /// There is a model exactly where that is a free-standing item, and the
    /// item a struct whose fields could be read. Where there is none, that is
    /// all the caller learns: no diagnostic is given.
    pub fn from_annotable(annotatable: &Annotatable) -> (model: Option<Self>)
        ensures
            model.deep_view() == model_of(annotatable@),
            model is Some <==> (annotatable@ matches AnnotatableView::Item(item)
                && item.node is Struct),
            annotatable@ matches AnnotatableView::Item(item) ==> (model is Some && !has_named(
                item.attrs,
                primary_key_annotation(),
            ) ==> model.unwrap()@.primary_key_names == default_primary_key()),
            annotatable@ matches AnnotatableView::Item(item) ==> (model is Some
                && well_formed_item(item) ==> model.unwrap()@.well_formed()),
    {
        if let Annotatable::Item(item) = annotatable {
            proof {
                lemma_first_named(item.attrs.deep_view(), primary_key_annotation());
            }
            let table_name_from_annotation = str_value_of_attr_with_name(
                &item.attrs,
                "table_name",
            );
            let primary_key_names = match list_value_of_attr_with_name(
                &item.attrs,
                "primary_key",
            ) {
                Some(names) => names,
                None => {
                    let mut names: Vec<String> = Vec::new();
                    names.push("id".to_owned());
                    assert(names.deep_view() =~= default_primary_key());
                    names
                },
            };
            match &item.node {
                ItemKind::Struct(generics, fields) => {
                    let ty = struct_ty(item.ident.as_str(), generics);
                    Some(
                        Model {
                            ty,
                            attrs: clone_attrs(fields),
                            name: item.ident.clone(),
                            generics: generics.clone(),
                            primary_key_names,
                            table_name_from_annotation,
                        },
                    )
                },
                ItemKind::Other => None,
            }
        } else {
            None
        }
    }

    /// The type expression that names the struct with its own parameters.
    pub fn ty(&self) -> (ty: &Ty)
        ensures
            ty@ == self@.ty,
    {
        &self.ty
    }

    /// The records of the fields, in declaration order.
    pub fn attrs(&self) -> (attrs: &[Attr])
        ensures
            attrs.deep_view() == self@.attrs,
    {
        let attrs = self.attrs.as_slice();
        assert(attrs.deep_view() =~= self.attrs.deep_view());
        attrs
    }

    /// The identifier of the struct.
    pub fn name(&self) -> (name: &str)
        ensures
            name@ == self@.name,
    {
        self.name.as_str()
    }

    /// The generic parameters of the struct.
    pub fn generics(&self) -> (generics: &Generics)
        ensures
            generics@ == self@.generics,
    {
        &self.generics
    }

    /// The primary key columns, in the order in which they were listed.
    pub fn primary_key_names(&self) -> (names: &[String])
        ensures
            names.deep_view() == self@.primary_key_names,
    {
        let names = self.primary_key_names.as_slice();
        assert(names.deep_view() =~= self.primary_key_names.deep_view());
        names
    }

    /// The table name that an annotation gave, if one did.
    pub fn table_name_from_annotation(&self) -> (name: Option<&str>)
        ensures
            name.deep_view() == self@.table_name_from_annotation,
    {
        match &self.table_name_from_annotation {
            Some(name) => Some(name.as_str()),
            None => None,
        }
    }

    /// The table name: the one that an annotation gave, whatever the
    /// identifier is; else the one inferred from the identifier.
    ///
    /// Without a table name from an annotation the identifier must not be
    /// empty.
    pub fn table_name(&self) -> (table_name: String)
        requires
            self@.table_name_from_annotation is None ==> self@.name.len() > 0,
        ensures
            table_name@ == self@.table_name(),
            self@.table_name_from_annotation matches Some(name) ==> table_name@ == name,
            self@.table_name_from_annotation is None ==> table_name@ == table_name_of(
                self@.name,
            ),
    {
        match &self.table_name_from_annotation {
            Some(name) => name.clone(),
            None => infer_table_name(self.name.as_str()),
        }
    }

    /// The first field record, in declaration order, whose column name is
    /// `name`; none where no record has that column name.
    pub fn attr_named(&self, name: &str) -> (found: Option<&Attr>)
        ensures
            found is Some <==> self@.has_column(name@),
            found matches Some(attr) ==> exists|i: int|
                #![trigger self@.attrs[i]]
                self@.is_first_named(name@, i) && attr@ == self@.attrs[i],
    {
        let wanted = name.to_owned();
        let mut i: usize = 0;
        while i < self.attrs.len()
            invariant
                i <= self.attrs.len(),
                wanted@ == name@,
                forall|j: int| 0 <= j < i ==> (#[trigger] self@.attrs[j]).column_name != name@,
            decreases self.attrs.len() - i,
        {
            assert(self@.attrs[i as int] == self.attrs[i as int]@);
            if self.attrs[i].column_name == wanted {
                assert(self@.is_first_named(name@, i as int));
                return Some(&self.attrs[i]);
            }
            i = i + 1;
        }
        None
    }

    /// The token groups that describe the fields to a later pass: one group
    /// per field, in declaration order.
    pub fn field_tokens_for_stable_macro(&self) -> (groups: Vec<Vec<String>>)
        ensures
            groups.deep_view() == self@.field_tokens(),
    {
        let mut groups: Vec<Vec<String>> = Vec::new();
        let mut i: usize = 0;
        while i < self.attrs.len()
            invariant
                i <= self.attrs.len(),
                groups.len() == i,
                forall|j: int|
                    0 <= j < i ==> (#[trigger] groups[j]).deep_view()
                        == self@.attrs[j].stable_macro_tokens,
            decreases self.attrs.len() - i,
        {
            assert(self@.attrs[i as int] == self.attrs[i as int]@);
            groups.push(self.attrs[i].to_stable_macro_tokens());
            i = i + 1;
        }
        assert(groups.deep_view() =~= self@.field_tokens());
        groups
    }
}

} // verus!
