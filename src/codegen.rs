//! Code generation for `DefaultSchedule` on field-less label types.
//!
//! The item that the derive is applied to is described by an [`ItemShape`]:
//! the kind of item, its name, its generic parameters and its where clause,
//! each as source text. From that the derive plans an impl
//! ([`plan_default_schedule`]) and writes it out as source text
//! ([`DefaultScheduleImpl::to_source`]).
use vstd::prelude::*;

verus! {

/// How the fields of a struct are written.
#[derive(PartialEq, Eq, Structural, Clone, Copy, Debug)]
pub enum FieldsShape {
    /// `struct A { x: u8 }`
    Named,
    /// `struct A(u8);`
    Unnamed,
    /// `struct A;`
    Unit,
}

/// The kind of item a derive is applied to.
#[derive(PartialEq, Eq, Structural, Clone, Copy, Debug)]
pub enum DataShape {
    Struct(FieldsShape),
    Enum,
    Union,
}

/// The kind of a generic parameter.
#[derive(PartialEq, Eq, Structural, Clone, Copy, Debug)]
pub enum ParamKind {
    /// `T: Bound`
    Type,
    /// `'a: 'b`
    Lifetime,
    /// `const N: usize`
    Const,
}

/// One generic parameter of the item, as source text.
pub struct GenericParamShape {
    pub kind: ParamKind,
    /// The outer attributes written before the parameter; empty if none.
    pub attrs: String,
    /// The parameter's name: `T`, `'a` or `N`.
    pub name: String,
    /// For a type or lifetime parameter, its bounds (empty if none); for a
    /// const parameter, its type.
    pub bounds: String,
}

/// The item that `DefaultSchedule` is derived for.
pub struct ItemShape {
    pub ident: String,
    pub data: DataShape,
    pub params: Vec<GenericParamShape>,
    /// The where clause, `where` keyword included.
    pub where_clause: Option<String>,
}

/// Why the derive refused an item.
#[derive(PartialEq, Eq, Structural, Clone, Copy, Debug)]
pub enum DeriveError {
    /// The item is not a struct without fields.
    NotUnitStruct,
}

/// The planned `DefaultSchedule` impl for a unit struct.
pub struct DefaultScheduleImpl {
    /// The label type's name, also its one value.
    pub ident: String,
    /// The impl's generic parameters: those of the type, bounds kept.
    pub impl_params: Vec<GenericParamShape>,
    /// The type's arguments in the impl header: the parameters' bare names.
    pub type_args: Vec<String>,
    /// The type's where clause, carried over.
    pub where_clause: Option<String>,
}

/// The declaration of a generic parameter, with its attributes and bounds.
pub open spec fn param_decl(p: GenericParamShape) -> Seq<char> {
    let attrs = if p.attrs@.len() == 0 {
        Seq::<char>::empty()
    } else {
        p.attrs@ + " "@
    };
    match p.kind {
        ParamKind::Const => attrs + "const "@ + p.name@ + ": "@ + p.bounds@,
        _ => if p.bounds@.len() == 0 {
            attrs + p.name@
        } else {
            attrs + p.name@ + ": "@ + p.bounds@
        },
    }
}

/// `parts` separated by commas.
pub open spec fn comma_list(parts: Seq<Seq<char>>) -> Seq<char>
    decreases parts.len(),
{
    if parts.len() == 0 {
        Seq::<char>::empty()
    } else if parts.len() == 1 {
        parts[0]
    } else {
        comma_list(parts.drop_last()) + ", "@ + parts.last()
    }
}

/// The text of an optional piece of source.
pub open spec fn opt_text(o: Option<String>) -> Option<Seq<char>> {
    match o {
        Some(s) => Some(s@),
        None => None,
    }
}

/// The source text of a `DefaultSchedule` impl for the unit struct `ident`,
/// with impl parameters `decls`, type arguments `args` and where clause `wc`.
pub open spec fn impl_text(
    ident: Seq<char>,
    decls: Seq<Seq<char>>,
    args: Seq<Seq<char>>,
    wc: Option<Seq<char>>,
) -> Seq<char> {
    let header = if decls.len() == 0 {
        "impl ::bevy_previous::DefaultSchedule for "@ + ident
    } else {
        "impl<"@ + comma_list(decls) + "> ::bevy_previous::DefaultSchedule for "@ + ident + "<"@
            + comma_list(args) + ">"@
    };
    let wc_part = match wc {
        Some(w) => " "@ + w,
        None => Seq::<char>::empty(),
    };
    header + wc_part + " { fn default() -> Self { "@ + ident + " } }"@
}

/// The source text that the derive emits for `item`, when it is a unit struct.
pub open spec fn item_impl_text(item: ItemShape) -> Seq<char> {
    impl_text(
        item.ident@,
        item.params@.map_values(|p: GenericParamShape| param_decl(p)),
        item.params@.map_values(|p: GenericParamShape| p.name@),
        opt_text(item.where_clause),
    )
}

pub open spec fn is_unit_struct(data: DataShape) -> bool {
    data == DataShape::Struct(FieldsShape::Unit)
}

impl DeriveError {
    /// The diagnostic shown for the error.
    pub fn message(&self) -> (r: String)
        ensures
            r@ == "The macro only works on unit structs."@,
    {
        match self {
            DeriveError::NotUnitStruct => String::from_str(
                "The macro only works on unit structs.",
            ),
        }
    }
}

impl GenericParamShape {
    /// The parameter's declaration as source text.
    pub fn decl_source(&self) -> (r: String)
        ensures
            r@ == param_decl(*self),
    {
        let mut s = String::new();
        if !self.attrs.as_str().is_empty() {
            s.append(self.attrs.as_str());
            s.append(" ");
        }
        let ghost attrs = s@;
        assert(attrs =~= if self.attrs@.len() == 0 {
            Seq::<char>::empty()
        } else {
            self.attrs@ + " "@
        });
        match self.kind {
            ParamKind::Const => {
                s.append("const ");
                s.append(self.name.as_str());
                s.append(": ");
                s.append(self.bounds.as_str());
                assert(s@ =~= attrs + "const "@ + self.name@ + ": "@ + self.bounds@);
            },
            _ => {
                s.append(self.name.as_str());
                if !self.bounds.as_str().is_empty() {
                    s.append(": ");
                    s.append(self.bounds.as_str());
                    assert(s@ =~= attrs + self.name@ + ": "@ + self.bounds@);
                }
            },
        }
        s
    }
}

/// Appends `parts`, separated by commas, to `s`.
fn append_comma_list(s: &mut String, parts: &Vec<String>)
    ensures
        final(s)@ == old(s)@ + comma_list(parts@.map_values(|p: String| p@)),
{
    let ghost start = s@;
    let ghost texts = parts@.map_values(|p: String| p@);
    let mut i: usize = 0;
    while i < parts.len()
        invariant
            i <= parts.len(),
            texts == parts@.map_values(|p: String| p@),
            s@ == start + comma_list(texts.take(i as int)),
        decreases parts.len() - i,
    {
        if i != 0 {
            s.append(", ");
        }
        s.append(parts[i].as_str());
        proof {
            assert(texts.take(i as int + 1).drop_last() =~= texts.take(i as int));
            if i == 0 {
                assert(comma_list(texts.take(0)) =~= Seq::<char>::empty());
            }
        }
        i = i + 1;
    }
    assert(texts.take(parts.len() as int) =~= texts);
}

/// Plans the `DefaultSchedule` impl for `item`.
///
/// Only a struct without fields has a single value to return, so any other
/// item is refused. The impl takes the type's generic parameters with their
/// bounds, names the type with the bare parameters, and keeps the type's where
/// clause.
pub fn plan_default_schedule(item: ItemShape) -> (r: Result<DefaultScheduleImpl, DeriveError>)
    ensures
        r is Ok <==> is_unit_struct(item.data),
        r is Err ==> r == Err::<DefaultScheduleImpl, DeriveError>(DeriveError::NotUnitStruct),
        r matches Ok(plan) ==> {
            &&& plan.ident == item.ident
            &&& plan.impl_params@ == item.params@
            &&& plan.type_args@.len() == item.params@.len()
            &&& forall|i: int|
                0 <= i < item.params@.len() ==> #[trigger] plan.type_args@[i]@
                    == item.params@[i].name@
            &&& plan.where_clause == item.where_clause
        },
{
    match item.data {
        DataShape::Struct(FieldsShape::Unit) => {},
        _ => {
            return Err(DeriveError::NotUnitStruct);
        },
    }
    let mut type_args: Vec<String> = Vec::new();
    let mut i: usize = 0;
    while i < item.params.len()
        invariant
            i <= item.params.len(),
            type_args@.len() == i,
            forall|j: int| 0 <= j < i ==> #[trigger] type_args@[j]@ == item.params@[j].name@,
        decreases item.params.len() - i,
    {
        type_args.push(item.params[i].name.clone());
        i = i + 1;
    }
    Ok(DefaultScheduleImpl {
        ident: item.ident,
        impl_params: item.params,
        type_args,
        where_clause: item.where_clause,
    })
}

impl DefaultScheduleImpl {
    /// The impl written out as source text.
    pub fn to_source(&self) -> (r: String)
        ensures
            r@ == impl_text(
                self.ident@,
                self.impl_params@.map_values(|p: GenericParamShape| param_decl(p)),
                self.type_args@.map_values(|s: String| s@),
                opt_text(self.where_clause),
            ),
    {
        let ghost decls = self.impl_params@.map_values(|p: GenericParamShape| param_decl(p));
        let mut s = String::new();
        if self.impl_params.len() == 0 {
            s.append("impl ::bevy_previous::DefaultSchedule for ");
            s.append(self.ident.as_str());
        } else {
            let mut decl_texts: Vec<String> = Vec::new();
            let mut i: usize = 0;
            while i < self.impl_params.len()
                invariant
                    i <= self.impl_params.len(),
                    decls == self.impl_params@.map_values(|p: GenericParamShape| param_decl(p)),
                    decl_texts@.map_values(|t: String| t@) =~= decls.take(i as int),
                decreases self.impl_params.len() - i,
            {
                let d = self.impl_params[i].decl_source();
                let ghost before = decl_texts@;
                decl_texts.push(d);
                assert(decl_texts@ == before.push(d));
                assert(decl_texts@.map_values(|t: String| t@) =~= before.map_values(
                    |t: String| t@,
                ).push(d@));
                assert(decls.take(i as int + 1) =~= decls.take(i as int).push(decls[i as int]));
                i = i + 1;
            }
            s.append("impl<");
            append_comma_list(&mut s, &decl_texts);
            s.append("> ::bevy_previous::DefaultSchedule for ");
            s.append(self.ident.as_str());
            s.append("<");
            append_comma_list(&mut s, &self.type_args);
            s.append(">");
            assert(decls.take(i as int) =~= decls);
        }
        match &self.where_clause {
            Some(w) => {
                s.append(" ");
                s.append(w.as_str());
            },
            None => {},
        }
        s.append(" { fn default() -> Self { ");
        s.append(self.ident.as_str());
        s.append(" } }");
        s
    }
}

/// Derives `DefaultSchedule` for `item`: the impl's source text, or the
/// reason the item was refused.
pub fn default_schedule(item: ItemShape) -> (r: Result<String, DeriveError>)
    ensures
        r is Ok <==> is_unit_struct(item.data),
        r is Err ==> r == Err::<String, DeriveError>(DeriveError::NotUnitStruct),
        r matches Ok(s) ==> s@ == item_impl_text(item),
{
    let ghost original = item;
    match plan_default_schedule(item) {
        Ok(plan) => {
            let s = plan.to_source();
            assert(plan.type_args@.map_values(|t: String| t@) =~= original.params@.map_values(
                |p: GenericParamShape| p.name@,
            ));
            Ok(s)
        },
        Err(e) => Err(e),
    }
}

/// For a generic unit struct, the derived impl is generic over the same
/// parameters, each declared with the bounds the type gives it; it names the
/// type by the bare parameter names, keeps the type's where clause, and returns
/// the type's one value.
pub proof fn lemma_generic_passthrough(item: ItemShape)
    requires
        is_unit_struct(item.data),
        item.params@.len() > 0,
    ensures
        item_impl_text(item) == "impl<"@ + comma_list(
            item.params@.map_values(|p: GenericParamShape| param_decl(p)),
        ) + "> ::bevy_previous::DefaultSchedule for "@ + item.ident@ + "<"@ + comma_list(
            item.params@.map_values(|p: GenericParamShape| p.name@),
        ) + ">"@ + match item.where_clause {
            Some(w) => " "@ + w@,
            None => Seq::<char>::empty(),
        } + " { fn default() -> Self { "@ + item.ident@ + " } }"@,
        forall|i: int|
            0 <= i < item.params@.len() && item.params@[i].kind != ParamKind::Const
                && item.params@[i].bounds@.len() > 0 ==> #[trigger] param_decl(item.params@[i])
                == (if item.params@[i].attrs@.len() == 0 {
                Seq::<char>::empty()
            } else {
                item.params@[i].attrs@ + " "@
            }) + item.params@[i].name@ + ": "@ + item.params@[i].bounds@,
{
}

} // verus!
