//! The schema model: a typed representation of a GraphQL introspection
//! result. A `TypeRef` is a possibly-wrapped chain of nullable/list type
//! wrappers; the resolvers walk the chain under a fixed depth bound. The
//! `Schema` exposes lookup of its types by name and by kind.

use crate::sort::{seq_of_refs, Named};
use crate::text::str_eq;
use vstd::prelude::*;

verus! {

/// How many wrapper levels a type-reference resolver will follow before it
/// gives up and resolves to an empty string. GraphQL wrapper chains are
/// never deeper in practice; the bound keeps resolution total on malformed
/// input.
pub const TYPE_LEVELS: u32 = 7;

/// The error a failed schema parse carries; its message is surfaced verbatim.
#[derive(Debug)]
pub struct SchemaError {
    message: String,
}

impl View for SchemaError {
    type V = Seq<char>;

    closed spec fn view(&self) -> Seq<char> {
        self.message@
    }
}

impl SchemaError {
    /// A new error with the given message.
    pub fn new(message: &str) -> (r: SchemaError)
        ensures
            r@ == message@,
    {
        SchemaError { message: message.to_owned() }
    }

    /// The message the error carries.
    pub fn message(&self) -> (r: &str)
        ensures
            r@ == self@,
    {
        self.message.as_str()
    }
}

/// A reference to a type: a name and kind, possibly wrapping an inner
/// reference when the kind is a `NON_NULL` or `LIST` decoration.
#[derive(Debug)]
pub struct TypeRef {
    pub name: Option<String>,
    pub kind: Option<String>,
    pub of_type: Option<Box<TypeRef>>,
}

/// A field of an object, interface or root operation type.
#[derive(Debug)]
pub struct Field {
    pub name: Option<String>,
    pub description: Option<String>,
    pub args: Option<Vec<Input>>,
    pub field_type: Option<TypeRef>,
    pub is_deprecated: Option<bool>,
    pub deprecation_reason: Option<String>,
}

/// An input value: an argument of a field, or a field of an input object.
#[derive(Debug)]
pub struct Input {
    pub name: Option<String>,
    pub description: Option<String>,
    pub input_type: Option<TypeRef>,
    pub default_value: Option<String>,
}

/// One value of an enum type.
#[derive(Debug)]
pub struct Enum {
    pub name: Option<String>,
    pub description: Option<String>,
    pub is_deprecated: Option<bool>,
    pub deprecation_reason: Option<String>,
}

/// A named type of the schema, with the member lists that apply to its kind.
#[derive(Debug)]
pub struct Type {
    pub name: Option<String>,
    pub kind: Option<String>,
    pub description: Option<String>,
    pub fields: Option<Vec<Field>>,
    pub inputs: Option<Vec<Input>>,
    pub interfaces: Option<Vec<TypeRef>>,
    pub enums: Option<Vec<Enum>>,
    pub possible_types: Option<Vec<TypeRef>>,
}

/// A directive declared by the schema; parsed for completeness, unused by
/// the renderers.
#[derive(Debug)]
pub struct Directive {
    pub(crate) name: Option<String>,
    pub(crate) description: Option<String>,
    pub(crate) locations: Option<Vec<String>>,
    pub(crate) args: Option<Vec<Input>>,
}

/// An introspected schema: the root operation types, the type list and the
/// directives.
#[derive(Debug)]
pub struct Schema {
    pub query_type: Option<Type>,
    pub mutation_type: Option<Type>,
    pub subscription_type: Option<Type>,
    pub types: Option<Vec<Type>>,
    pub directives: Option<Vec<Directive>>,
}

/// Whether the reference's own kind is `NON_NULL`.
pub open spec fn is_required_view(t: TypeRef) -> bool {
    match t.kind {
        Option::Some(k) => k@ == "NON_NULL"@,
        Option::None => false,
    }
}

/// Whether the reference's own kind is `LIST`.
pub open spec fn is_list_view(t: TypeRef) -> bool {
    match t.kind {
        Option::Some(k) => k@ == "LIST"@,
        Option::None => false,
    }
}

/// The innermost name of the chain: the first level that carries a name,
/// read through at most `fuel` levels; empty when the fuel runs out or the
/// chain ends without a name.
pub open spec fn actual_name_view(t: TypeRef, fuel: nat) -> Seq<char>
    decreases fuel,
{
    if fuel == 0 {
        Seq::empty()
    } else {
        match t.name {
            Option::Some(n) => n@,
            Option::None => match t.of_type {
                Option::Some(inner) => actual_name_view(*inner, (fuel - 1) as nat),
                Option::None => Seq::empty(),
            },
        }
    }
}

/// The kind at the point where the chain bottoms out (where `of_type` is
/// absent), read through at most `fuel` levels; empty when the fuel runs out
/// or no kind is present there.
pub open spec fn actual_kind_view(t: TypeRef, fuel: nat) -> Seq<char>
    decreases fuel,
{
    if fuel == 0 {
        Seq::empty()
    } else {
        match t.of_type {
            Option::Some(inner) => actual_kind_view(*inner, (fuel - 1) as nat),
            Option::None => match t.kind {
                Option::Some(k) => k@,
                Option::None => Seq::empty(),
            },
        }
    }
}

/// GraphQL's textual type syntax for the chain: the inner rendering with `!`
/// appended at a `NON_NULL` level and `[...]` wrapped around at a `LIST`
/// level; empty when the fuel runs out.
pub open spec fn decorated_name_view(t: TypeRef, fuel: nat) -> Seq<char>
    decreases fuel,
{
    if fuel == 0 {
        Seq::empty()
    } else {
        let base = match t.name {
            Option::Some(n) => n@,
            Option::None => match t.of_type {
                Option::Some(inner) => decorated_name_view(*inner, (fuel - 1) as nat),
                Option::None => Seq::empty(),
            },
        };
        let with_required = if is_required_view(t) {
            base + "!"@
        } else {
            base
        };
        if is_list_view(t) {
            "["@ + with_required + "]"@
        } else {
            with_required
        }
    }
}

impl TypeRef {
    /// Whether this level of the chain is a `NON_NULL` decoration; a shallow,
    /// single-level check.
    pub fn is_required(&self) -> (r: bool)
        ensures
            r == is_required_view(*self),
    {
        match &self.kind {
            Option::Some(k) => str_eq(k.as_str(), "NON_NULL"),
            Option::None => false,
        }
    }

    /// Whether this level of the chain is a `LIST` decoration; a shallow,
    /// single-level check.
    pub fn is_list(&self) -> (r: bool)
        ensures
            r == is_list_view(*self),
    {
        match &self.kind {
            Option::Some(k) => str_eq(k.as_str(), "LIST"),
            Option::None => false,
        }
    }

    /// The innermost non-empty name of the chain, within the depth bound.
    pub fn get_actual_name(&self) -> (r: String)
        ensures
            r@ == actual_name_view(*self, TYPE_LEVELS as nat),
    {
        self.recurse_actual_name(TYPE_LEVELS)
    }

    fn recurse_actual_name(&self, level: u32) -> (r: String)
        ensures
            r@ == actual_name_view(*self, level as nat),
        decreases level,
    {
        if level == 0 {
            return String::new();
        }
        match &self.name {
            Option::Some(name) => name.clone(),
            Option::None => match &self.of_type {
                Option::Some(typ) => typ.recurse_actual_name(level - 1),
                Option::None => String::new(),
            },
        }
    }

    /// The chain rendered in GraphQL's textual type syntax, e.g. `[ID!]!`,
    /// within the depth bound.
    pub fn get_decorated_name(&self) -> (r: String)
        ensures
            r@ == decorated_name_view(*self, TYPE_LEVELS as nat),
    {
        self.recurse_decorated_name(TYPE_LEVELS)
    }

    fn recurse_decorated_name(&self, level: u32) -> (r: String)
        ensures
            r@ == decorated_name_view(*self, level as nat),
        decreases level,
    {
        if level == 0 {
            return String::new();
        }
        let mut s: String = match &self.name {
            Option::Some(name) => name.clone(),
            Option::None => match &self.of_type {
                Option::Some(typ) => typ.recurse_decorated_name(level - 1),
                Option::None => String::new(),
            },
        };
        if self.is_required() {
            s.append("!");
        }
        if self.is_list() {
            let mut wrapped = String::from_str("[");
            wrapped.append(s.as_str());
            wrapped.append("]");
            s = wrapped;
        }
        proof {
            assert(s@ =~= decorated_name_view(*self, level as nat));
        }
        s
    }

    /// The kind at the bottom of the chain, within the depth bound.
    pub fn get_actual_kind(&self) -> (r: String)
        ensures
            r@ == actual_kind_view(*self, TYPE_LEVELS as nat),
    {
        self.recurse_actual_kind(TYPE_LEVELS)
    }

    fn recurse_actual_kind(&self, level: u32) -> (r: String)
        ensures
            r@ == actual_kind_view(*self, level as nat),
        decreases level,
    {
        if level == 0 {
            return String::new();
        }
        match &self.of_type {
            Option::Some(typ) => typ.recurse_actual_kind(level - 1),
            Option::None => match &self.kind {
                Option::Some(kind) => kind.clone(),
                Option::None => String::new(),
            },
        }
    }
}

/// The name a root operation type contributes: its own `name`, when both are
/// present.
pub open spec fn root_name_view(t: Option<Type>) -> Option<String> {
    match t {
        Option::Some(typ) => typ.name,
        Option::None => Option::None,
    }
}

/// Whether the type's name is present and equal to `name`.
pub open spec fn type_name_matches(t: Type, name: Seq<char>) -> bool {
    match t.name {
        Option::Some(n) => n@ == name,
        Option::None => false,
    }
}

/// Whether the type's kind is present and equal to `kind`.
pub open spec fn type_kind_matches(t: Type, kind: Seq<char>) -> bool {
    match t.kind {
        Option::Some(k) => k@ == kind,
        Option::None => false,
    }
}

/// The first type in the list whose name matches, if any.
pub open spec fn first_type_named(ts: Seq<Type>, name: Seq<char>) -> Option<Type>
    decreases ts.len(),
{
    if ts.len() == 0 {
        Option::None
    } else if type_name_matches(ts[0], name) {
        Option::Some(ts[0])
    } else {
        first_type_named(ts.drop_first(), name)
    }
}

/// What `Schema::get_type` returns: the first match in the type list, or
/// nothing when the list is absent or no name matches.
pub open spec fn get_type_view(s: Schema, name: Seq<char>) -> Option<Type> {
    match s.types {
        Option::Some(ts) => first_type_named(ts@, name),
        Option::None => Option::None,
    }
}

/// The types of the list whose kind matches, in their original relative
/// order.
pub open spec fn kinds_filtered(ts: Seq<Type>, kind: Seq<char>) -> Seq<Type> {
    ts.filter(|t: Type| type_kind_matches(t, kind))
}

/// What `Schema::get_types_of_kind` returns: the types whose kind matches,
/// in their original relative order.
pub open spec fn types_of_kind_view(s: Schema, kind: Seq<char>) -> Seq<Type> {
    match s.types {
        Option::Some(ts) => kinds_filtered(ts@, kind),
        Option::None => Seq::empty(),
    }
}

proof fn lemma_first_type_named_skip(ts: Seq<Type>, name: Seq<char>, i: int)
    requires
        0 <= i <= ts.len(),
        forall|j: int| 0 <= j < i ==> !type_name_matches(#[trigger] ts[j], name),
    ensures
        first_type_named(ts, name) == first_type_named(ts.skip(i), name),
    decreases i,
{
    if i == 0 {
        assert(ts.skip(0) =~= ts);
    } else {
        assert(ts.drop_first() =~= ts.skip(1));
        lemma_first_type_named_skip(ts.drop_first(), name, i - 1);
        assert(ts.drop_first().skip(i - 1) =~= ts.skip(i));
    }
}

impl Schema {
    /// The name of the schema's root query type, if it has one.
    pub fn get_query_name(&self) -> (r: Option<String>)
        ensures
            r == root_name_view(self.query_type),
    {
        Schema::get_type_name(&self.query_type)
    }

    /// The name of the schema's root mutation type, if it has one.
    pub fn get_mutation_name(&self) -> (r: Option<String>)
        ensures
            r == root_name_view(self.mutation_type),
    {
        Schema::get_type_name(&self.mutation_type)
    }

    /// The name of the schema's root subscription type, if it has one.
    pub fn get_subscription_name(&self) -> (r: Option<String>)
        ensures
            r == root_name_view(self.subscription_type),
    {
        Schema::get_type_name(&self.subscription_type)
    }

    fn get_type_name(typ: &Option<Type>) -> (r: Option<String>)
        ensures
            r == root_name_view(*typ),
    {
        match typ {
            Option::Some(t) => match &t.name {
                Option::Some(n) => Option::Some(n.clone()),
                Option::None => Option::None,
            },
            Option::None => Option::None,
        }
    }

    /// The first type in the schema's type list carrying the given name:
    /// lookup is first-match-deterministic, and types without a name never
    /// match.
    pub fn get_type(&self, name: &str) -> (r: Option<&Type>)
        ensures
            match r {
                Option::Some(t) => get_type_view(*self, name@) == Option::Some(*t),
                Option::None => get_type_view(*self, name@) is None,
            },
    {
        match &self.types {
            Option::Some(types) => {
                let n = types.len();
                let mut i: usize = 0;
                while i < n
                    invariant
                        i <= n,
                        n == types@.len(),
                        self.types == Option::Some(*types),
                        forall|j: int|
                            0 <= j < i ==> !type_name_matches(#[trigger] types@[j], name@),
                    decreases n - i,
                {
                    let matches_here = match &types[i].name {
                        Option::Some(tn) => str_eq(tn.as_str(), name),
                        Option::None => false,
                    };
                    proof {
                        assert(matches_here == type_name_matches(types@[i as int], name@));
                    }
                    if matches_here {
                        proof {
                            lemma_first_type_named_skip(types@, name@, i as int);
                            assert(types@.skip(i as int)[0] == types@[i as int]);
                            assert(first_type_named(types@.skip(i as int), name@)
                                == Option::Some(types@[i as int]));
                        }
                        let tref = &types[i];
                        proof {
                            assert(*tref == types@[i as int]);
                            assert(get_type_view(*self, name@) == Option::Some(types@[i as int]));
                        }
                        return Option::Some(tref);
                    }
                    i = i + 1;
                }
                proof {
                    lemma_first_type_named_skip(types@, name@, n as int);
                    assert(types@.skip(n as int) =~= Seq::<Type>::empty());
                }
                Option::None
            },
            Option::None => Option::None,
        }
    }

    /// All types of the given kind, in their original relative order; an
    /// absent type list yields an empty result.
    pub fn get_types_of_kind(&self, kind: &str) -> (r: Vec<&Type>)
        ensures
            seq_of_refs(r@) == types_of_kind_view(*self, kind@),
    {
        let mut vec: Vec<&Type> = Vec::new();
        match &self.types {
            Option::Some(types) => {
                let n = types.len();
                let mut i: usize = 0;
                proof {
                    reveal(Seq::filter);
                    assert(types@.take(0) =~= Seq::<Type>::empty());
                    assert(seq_of_refs(vec@) =~= kinds_filtered(types@.take(0), kind@));
                }
                while i < n
                    invariant
                        i <= n,
                        n == types@.len(),
                        seq_of_refs(vec@) == kinds_filtered(types@.take(i as int), kind@),
                    decreases n - i,
                {
                    let ghost prev: Seq<&Type> = vec@;
                    let matches_here = match &types[i].kind {
                        Option::Some(k) => str_eq(k.as_str(), kind),
                        Option::None => false,
                    };
                    if matches_here {
                        vec.push(&types[i]);
                    }
                    proof {
                        reveal(Seq::filter);
                        assert(matches_here == type_kind_matches(types@[i as int], kind@));
                        assert(types@.take(i + 1).drop_last() =~= types@.take(i as int));
                        assert(types@.take(i + 1).last() == types@[i as int]);
                        if matches_here {
                            assert(kinds_filtered(types@.take(i + 1), kind@) == kinds_filtered(
                                types@.take(i as int),
                                kind@,
                            ).push(types@[i as int]));
                            assert(seq_of_refs(vec@) =~= seq_of_refs(prev).push(
                                types@[i as int],
                            ));
                        } else {
                            assert(kinds_filtered(types@.take(i + 1), kind@) == kinds_filtered(
                                types@.take(i as int),
                                kind@,
                            ));
                        }
                        assert(seq_of_refs(vec@) =~= kinds_filtered(types@.take(i + 1), kind@));
                    }
                    i = i + 1;
                }
                proof {
                    assert(types@.take(n as int) =~= types@);
                }
            },
            Option::None => {
                proof {
                    reveal(Seq::filter);
                    assert(seq_of_refs(vec@) =~= Seq::<Type>::empty());
                }
            },
        }
        vec
    }

    /// Reading a schema from native GraphQL SDL syntax is a known gap: it
    /// reports a fixed "not yet implemented" error rather than producing an
    /// empty schema.
    pub fn from_schema(_file: &str) -> (r: Result<Schema, SchemaError>)
        ensures
            r matches Err(e) && e@ == "not yet implemented"@,
    {
        Err(SchemaError::new("not yet implemented"))
    }
}

impl Named for Type {
    open spec fn name_key(&self) -> Option<Seq<char>> {
        self.name.deep_view()
    }

    fn le_name(&self, other: &Self) -> (r: bool) {
        crate::text::opt_string_le(&self.name, &other.name)
    }
}

impl Named for Input {
    open spec fn name_key(&self) -> Option<Seq<char>> {
        self.name.deep_view()
    }

    fn le_name(&self, other: &Self) -> (r: bool) {
        crate::text::opt_string_le(&self.name, &other.name)
    }
}

impl Named for Field {
    open spec fn name_key(&self) -> Option<Seq<char>> {
        self.name.deep_view()
    }

    fn le_name(&self, other: &Self) -> (r: bool) {
        crate::text::opt_string_le(&self.name, &other.name)
    }
}

impl Named for Enum {
    open spec fn name_key(&self) -> Option<Seq<char>> {
        self.name.deep_view()
    }

    fn le_name(&self, other: &Self) -> (r: bool) {
        crate::text::opt_string_le(&self.name, &other.name)
    }
}


/// A `NON_NULL` wrapper level round-trips GraphQL syntax: with fuel left,
/// an unnamed non-null wrapper renders as its inner rendering with `!`
/// appended.
pub proof fn lemma_decorated_name_non_null(t: TypeRef, fuel: nat)
    requires
        1 <= fuel,
        t.name is None,
        t.of_type is Some,
        is_required_view(t),
        !is_list_view(t),
    ensures
        decorated_name_view(t, fuel) == decorated_name_view(*t.of_type->0, (fuel - 1) as nat)
            + "!"@,
{
}

/// A `LIST` wrapper level round-trips GraphQL syntax: with fuel left, an
/// unnamed list wrapper renders as its inner rendering wrapped in brackets,
/// so compound forms like `[ID!]!` compose from the inside out.
pub proof fn lemma_decorated_name_list(t: TypeRef, fuel: nat)
    requires
        1 <= fuel,
        t.name is None,
        t.of_type is Some,
        is_list_view(t),
        !is_required_view(t),
    ensures
        decorated_name_view(t, fuel) == "["@ + decorated_name_view(
            *t.of_type->0,
            (fuel - 1) as nat,
        ) + "]"@,
{
}

/// A chain whose first `n` levels are bare wrappers: no name, no kind, and
/// an inner reference present at each of those levels.
pub open spec fn bare_wrapper_chain(t: TypeRef, n: nat) -> bool
    decreases n,
{
    if n == 0 {
        true
    } else {
        t.name is None && t.kind is None && match t.of_type {
            Option::Some(inner) => bare_wrapper_chain(*inner, (n - 1) as nat),
            Option::None => false,
        }
    }
}

/// Resolution is total under the depth bound: on a chain of `fuel` bare
/// wrapper levels the three resolvers all give the empty string rather than
/// panicking or recursing without bound.
pub proof fn lemma_resolution_fuel_exhausted(t: TypeRef, fuel: nat)
    requires
        bare_wrapper_chain(t, fuel),
    ensures
        actual_name_view(t, fuel) == Seq::<char>::empty(),
        actual_kind_view(t, fuel) == Seq::<char>::empty(),
        decorated_name_view(t, fuel) == Seq::<char>::empty(),
    decreases fuel,
{
    if fuel > 0 {
        lemma_resolution_fuel_exhausted(*t.of_type->0, (fuel - 1) as nat);
    }
}

/// A chain deeper than the resolvers' depth bound resolves to empty
/// strings: the name, kind and decorated-name resolvers all give up after
/// `TYPE_LEVELS` bare wrapper levels, whatever lies beneath them.
pub proof fn lemma_resolution_depth_bound(t: TypeRef)
    requires
        bare_wrapper_chain(t, TYPE_LEVELS as nat),
    ensures
        actual_name_view(t, TYPE_LEVELS as nat) == Seq::<char>::empty(),
        actual_kind_view(t, TYPE_LEVELS as nat) == Seq::<char>::empty(),
        decorated_name_view(t, TYPE_LEVELS as nat) == Seq::<char>::empty(),
{
    lemma_resolution_fuel_exhausted(t, TYPE_LEVELS as nat);
}

/// Type lookup is first-match-deterministic: when the type at index `j`
/// matches the name and no earlier one does, lookup returns exactly that
/// type. Because the result is a function of the schema and the name alone,
/// repeated lookups always agree.
pub proof fn lemma_get_type_first_match(s: Schema, name: Seq<char>, j: int)
    requires
        s.types is Some,
        0 <= j < s.types->0@.len(),
        type_name_matches(s.types->0@[j], name),
        forall|k: int| 0 <= k < j ==> !type_name_matches(#[trigger] s.types->0@[k], name),
    ensures
        get_type_view(s, name) == Option::Some(s.types->0@[j]),
{
    let ts = s.types->0@;
    lemma_first_type_named_skip(ts, name, j);
    assert(ts.skip(j)[0] == ts[j]);
}

} // verus!
