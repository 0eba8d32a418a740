//! The part of a method's syntax that the analysis of a component reads:
//! attributes, the receiver, the parameter types and the return type.
//! Values of these types are built by whoever parses the source text.

use vstd::prelude::*;

verus! {

/// A type as written in a signature.
pub enum TypeShape {
    /// A tuple type with `arity` elements; `()` has arity 0.
    Tuple { arity: usize },
    /// A path such as `Option<T>` or `std::sync::Arc<dyn Any>`.
    Path(TypePath),
    /// A reference `&T` or `&mut T` to the type `elem`.
    Reference { elem: Box<TypeShape> },
    /// Any other form of type.
    Other,
}

/// A path: its segments from left to right.
pub struct TypePath {
    pub segments: Vec<PathSegment>,
}

/// One segment of a path: a name and what follows it in brackets.
pub struct PathSegment {
    pub ident: String,
    pub arguments: PathArguments,
}

/// What follows the name of a path segment.
pub enum PathArguments {
    /// Nothing.
    Empty,
    /// `<A, B, ..>`.
    AngleBracketed(Vec<GenericArgument>),
    /// `(A, B) -> C`.
    Parenthesized,
}

/// One argument between angle brackets.
pub enum GenericArgument {
    /// A type.
    Type(TypeShape),
    /// A lifetime, a constant or a binding.
    Other,
}

/// What a signature says after its parameter list.
pub enum ReturnShape {
    /// No `->` at all.
    Default,
    /// `-> ty`.
    Type(TypeShape),
}

/// One parameter of a method.
pub enum FnArg {
    /// `self` in one of its forms; `mutable` is set for `&mut self` and
    /// `mut self`.
    Receiver { mutable: bool },
    /// A parameter with a type.
    Typed(TypeShape),
}

/// What stands in an attribute after its path.
pub enum MetaShape {
    /// Nothing: `#[name]`.
    Path,
    /// A bracketed list: `#[name(..)]`. `is_empty` says that nothing stands
    /// between the brackets, `text` is what stands there.
    List { is_empty: bool, text: String },
    /// `#[name = value]`.
    NameValue,
}

/// An attribute: the names of its path and what follows.
pub struct AttrShape {
    pub path: Vec<String>,
    pub meta: MetaShape,
}

/// The signature of a method.
pub struct SignatureShape {
    pub is_async: bool,
    pub inputs: Vec<FnArg>,
    pub output: ReturnShape,
}

/// A method of an impl block.
pub struct MethodShape {
    pub attrs: Vec<AttrShape>,
    pub sig: SignatureShape,
}

/// An item of an impl block.
pub enum ImplItem {
    /// A method.
    Fn(MethodShape),
    /// A constant, a type or a macro call.
    Other,
}

/// An impl block: its items in source order.
pub struct ImplShape {
    pub items: Vec<ImplItem>,
}

/// Whether the last segment of a path is named `name`.
pub open spec fn named(segments: Seq<PathSegment>, name: Seq<char>) -> bool {
    segments.len() > 0 && segments.last().ident@ == name
}

/// Whether the last of `names` is `name`.
pub open spec fn named_text(names: Seq<String>, name: Seq<char>) -> bool {
    names.len() > 0 && names.last()@ == name
}

/// The first argument between the angle brackets of the last segment, where
/// there is one and it is a type.
pub open spec fn first_type_arg(segments: Seq<PathSegment>) -> Option<TypeShape> {
    if segments.len() == 0 {
        None
    } else {
        match segments.last().arguments {
            PathArguments::AngleBracketed(args) => if args@.len() == 0 {
                None
            } else {
                match args@[0] {
                    GenericArgument::Type(ty) => Some(ty),
                    GenericArgument::Other => None,
                }
            },
            _ => None,
        }
    }
}

/// Whether `ty` is a path whose last segment is named `name`.
pub open spec fn is_path_named(ty: TypeShape, name: Seq<char>) -> bool {
    match ty {
        TypeShape::Path(p) => named(p.segments@, name),
        _ => false,
    }
}

/// Whether two texts hold the same characters.
pub fn text_eq(a: &str, b: &str) -> (same: bool)
    ensures
        same == (a@ == b@),
{
    let n = a.unicode_len();
    if n != b.unicode_len() {
        return false;
    }
    let mut i: usize = 0;
    while i < n
        invariant
            n == a@.len(),
            n == b@.len(),
            i <= n,
            forall|k: int| 0 <= k < i ==> a@[k] == b@[k],
        decreases n - i,
    {
        if a.get_char(i) != b.get_char(i) {
            return false;
        }
        i += 1;
    }
    assert(a@ =~= b@);
    true
}

impl TypePath {
    /// The last segment of the path.
    pub fn last_segment(&self) -> (seg: Option<&PathSegment>)
        ensures
            self.segments@.len() == 0 ==> seg is None,
            self.segments@.len() > 0 ==> seg == Some(&self.segments@.last()),
    {
        let n = self.segments.len();
        if n == 0 {
            None
        } else {
            Some(&self.segments[n - 1])
        }
    }

    /// Whether the last segment is named `name`.
    pub fn last_is(&self, name: &str) -> (yes: bool)
        ensures
            yes == named(self.segments@, name@),
    {
        match self.last_segment() {
            Some(seg) => text_eq(seg.ident.as_str(), name),
            None => false,
        }
    }

    /// The first argument between the angle brackets of the last segment,
    /// where it is a type.
    pub fn first_type_argument(&self) -> (arg: Option<&TypeShape>)
        ensures
            first_type_arg(self.segments@) is None ==> arg is None,
            first_type_arg(self.segments@) matches Some(ty) ==> arg == Some(&ty),
    {
        match self.last_segment() {
            Some(seg) => match &seg.arguments {
                PathArguments::AngleBracketed(args) => {
                    if args.len() == 0 {
                        None
                    } else {
                        match &args[0] {
                            GenericArgument::Type(ty) => Some(ty),
                            GenericArgument::Other => None,
                        }
                    }
                },
                _ => None,
            },
            None => None,
        }
    }
}

} // verus!
