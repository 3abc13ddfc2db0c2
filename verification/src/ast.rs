//! Declarations as the host hands them over, in plain values: an item with
//! its identifier, its annotations and, for a struct, its generic parameters
//! and the records of its fields.
//!
//! Identifiers, lifetimes and tokens are held by their text.

use vstd::prelude::*;

use crate::attr::{Attr, AttrView};

verus! {

/// The generic parameters of a declaration: the names of its lifetime
/// parameters and of its type parameters, each in declaration order.
#[derive(Debug, PartialEq, Eq)]
pub struct Generics {
    pub lifetimes: Vec<String>,
    pub ty_params: Vec<String>,
}

/// What a [`Generics`] stands for.
pub struct GenericsView {
    pub lifetimes: Seq<Seq<char>>,
    pub ty_params: Seq<Seq<char>>,
}

impl View for Generics {
    type V = GenericsView;

    open spec fn view(&self) -> GenericsView {
        GenericsView {
            lifetimes: self.lifetimes.deep_view(),
            ty_params: self.ty_params.deep_view(),
        }
    }
}

impl DeepView for Generics {
    type V = GenericsView;

    open spec fn deep_view(&self) -> GenericsView {
        self@
    }
}

/// A type expression that names a declared type together with its own
/// generic parameters as arguments, lifetimes first: `Name<'a, T>`.
#[derive(Debug, PartialEq, Eq)]
pub struct Ty {
    pub name: String,
    pub lifetimes: Vec<String>,
    pub ty_params: Vec<String>,
}

/// What a [`Ty`] stands for.
pub struct TyView {
    pub name: Seq<char>,
    pub lifetimes: Seq<Seq<char>>,
    pub ty_params: Seq<Seq<char>>,
}

impl View for Ty {
    type V = TyView;

    open spec fn view(&self) -> TyView {
        TyView {
            name: self.name@,
            lifetimes: self.lifetimes.deep_view(),
            ty_params: self.ty_params.deep_view(),
        }
    }
}

impl DeepView for Ty {
    type V = TyView;

    open spec fn deep_view(&self) -> TyView {
        self@
    }
}

/// The value that an annotation carries.
#[derive(Debug, PartialEq, Eq)]
pub enum MetaItemKind {
    /// No value: the annotation is its name alone.
    Word,
    /// One string literal: `name = "text"`.
    NameValue(String),
    /// A list of identifiers: `name(a, b)`.
    List(Vec<String>),
    /// A value of any other shape.
    Other,
}

/// What a [`MetaItemKind`] stands for.
pub enum MetaItemKindView {
    Word,
    NameValue(Seq<char>),
    List(Seq<Seq<char>>),
    Other,
}

impl View for MetaItemKind {
    type V = MetaItemKindView;

    open spec fn view(&self) -> MetaItemKindView {
        match self {
            MetaItemKind::Word => MetaItemKindView::Word,
            MetaItemKind::NameValue(text) => MetaItemKindView::NameValue(text@),
            MetaItemKind::List(names) => MetaItemKindView::List(names.deep_view()),
            MetaItemKind::Other => MetaItemKindView::Other,
        }
    }
}

impl DeepView for MetaItemKind {
    type V = MetaItemKindView;

    open spec fn deep_view(&self) -> MetaItemKindView {
        self@
    }
}

/// One annotation on a declaration: its name and the value it carries.
#[derive(Debug, PartialEq, Eq)]
pub struct Attribute {
    pub name: String,
    pub value: MetaItemKind,
}

/// What an [`Attribute`] stands for.
pub struct AttributeView {
    pub name: Seq<char>,
    pub value: MetaItemKindView,
}

impl View for Attribute {
    type V = AttributeView;

    open spec fn view(&self) -> AttributeView {
        AttributeView { name: self.name@, value: self.value@ }
    }
}

impl DeepView for Attribute {
    type V = AttributeView;

    open spec fn deep_view(&self) -> AttributeView {
        self@
    }
}

/// What kind of item a declaration is.
#[derive(Debug, PartialEq, Eq)]
pub enum ItemKind {
    /// A struct whose fields could all be read: its generic parameters and
    /// one record per field, in declaration order.
    Struct(Generics, Vec<Attr>),
    /// Any other item: a function, a module, or a struct with a field that
    /// could not be read.
    Other,
}

/// What an [`ItemKind`] stands for.
pub enum ItemKindView {
    Struct(GenericsView, Seq<AttrView>),
    Other,
}

impl View for ItemKind {
    type V = ItemKindView;

    open spec fn view(&self) -> ItemKindView {
        match self {
            ItemKind::Struct(generics, fields) => ItemKindView::Struct(
                generics@,
                fields.deep_view(),
            ),
            ItemKind::Other => ItemKindView::Other,
        }
    }
}

impl DeepView for ItemKind {
    type V = ItemKindView;

    open spec fn deep_view(&self) -> ItemKindView {
        self@
    }
}

/// A declared item: its identifier, its annotations in source order, and its
/// kind.
#[derive(Debug, PartialEq, Eq)]
pub struct Item {
    pub ident: String,
    pub attrs: Vec<Attribute>,
    pub node: ItemKind,
}

/// What an [`Item`] stands for.
pub struct ItemView {
    pub ident: Seq<char>,
    pub attrs: Seq<AttributeView>,
    pub node: ItemKindView,
}

impl View for Item {
    type V = ItemView;

    open spec fn view(&self) -> ItemView {
        ItemView { ident: self.ident@, attrs: self.attrs.deep_view(), node: self.node@ }
    }
}

impl DeepView for Item {
    type V = ItemView;

    open spec fn deep_view(&self) -> ItemView {
        self@
    }
}

/// Something that annotations can be attached to.
#[derive(Debug, PartialEq, Eq)]
pub enum Annotatable {
    /// A free-standing item.
    Item(Item),
    /// An item inside a trait.
    TraitItem,
    /// An item inside an impl.
    ImplItem,
}

/// What an [`Annotatable`] stands for.
pub enum AnnotatableView {
    Item(ItemView),
    TraitItem,
    ImplItem,
}

impl View for Annotatable {
    type V = AnnotatableView;

    open spec fn view(&self) -> AnnotatableView {
        match self {
            Annotatable::Item(item) => AnnotatableView::Item(item@),
            Annotatable::TraitItem => AnnotatableView::TraitItem,
            Annotatable::ImplItem => AnnotatableView::ImplItem,
        }
    }
}

impl DeepView for Annotatable {
    type V = AnnotatableView;

    open spec fn deep_view(&self) -> AnnotatableView {
        self@
    }
}

} // verus!
