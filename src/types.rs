use vstd::prelude::*;
use vstd::string::StringExecFns;

verus! {

broadcast use vstd::std_specs::vec::axiom_vec_index_decreases;

/// The type tags of the language.
#[derive(Debug)]
pub enum Type {
    Undefined,
    Any,
    Int,
    Float,
    Bool,
    String,
    NativeFunction,
    Function,
    Addr,
    Closure,
    /// One of the listed types.
    Union(Vec<Type>),
    /// The type of a type value.
    Type,
}

/// Type comparison: `Any` matches everything on either side; a union matches a
/// non-union type that one of its members matches; a union matches another union
/// when each member of the other union is matched by one of its own members.
pub open spec fn type_eq(a: Type, b: Type) -> bool
    decreases a, b, 0nat,
{
    if a is Any || b is Any {
        true
    } else {
        match a {
            Type::Union(xs) => match b {
                Type::Union(ys) => covers(xs, ys, ys.len() as nat),
                _ => some_matches(xs, b, xs.len() as nat),
            },
            _ => match b {
                Type::Union(ys) => matches_some(a, ys, ys.len() as nat),
                _ => same_tag(a, b),
            },
        }
    }
}

/// One of the first `n` members of `xs` matches `b` (member on the left).
pub open spec fn some_matches(xs: Vec<Type>, b: Type, n: nat) -> bool
    decreases xs, b, n,
{
    if n == 0 || n > xs.len() {
        false
    } else {
        type_eq(xs[n - 1], b) || some_matches(xs, b, (n - 1) as nat)
    }
}

/// `a` matches one of the first `n` members of `ys` (member on the right).
pub open spec fn matches_some(a: Type, ys: Vec<Type>, n: nat) -> bool
    decreases a, ys, n,
{
    if n == 0 || n > ys.len() {
        false
    } else {
        type_eq(a, ys[n - 1]) || matches_some(a, ys, (n - 1) as nat)
    }
}

/// Each of the first `n` members of `ys` is matched by some member of `xs`.
pub open spec fn covers(xs: Vec<Type>, ys: Vec<Type>, n: nat) -> bool
    decreases xs, ys, n,
{
    if n == 0 || n > ys.len() {
        true
    } else {
        some_matches(xs, ys[n - 1], xs.len() as nat) && covers(xs, ys, (n - 1) as nat)
    }
}

/// Two atomic tags are the same tag.
pub open spec fn same_tag(a: Type, b: Type) -> bool {
    match (a, b) {
        (Type::Undefined, Type::Undefined) => true,
        (Type::Any, Type::Any) => true,
        (Type::Int, Type::Int) => true,
        (Type::Float, Type::Float) => true,
        (Type::Bool, Type::Bool) => true,
        (Type::String, Type::String) => true,
        (Type::NativeFunction, Type::NativeFunction) => true,
        (Type::Function, Type::Function) => true,
        (Type::Addr, Type::Addr) => true,
        (Type::Closure, Type::Closure) => true,
        (Type::Type, Type::Type) => true,
        _ => false,
    }
}

/// The display name of a type: a fixed lowercase word for each atomic tag, and the
/// members' names joined by `|` for a union.
pub open spec fn name_of(t: Type) -> Seq<char>
    decreases t, 0nat,
{
    match t {
        Type::Undefined => "undefined"@,
        Type::Any => "any"@,
        Type::Int => "int"@,
        Type::Float => "float"@,
        Type::Bool => "bool"@,
        Type::String => "str"@,
        Type::NativeFunction => "nativ-function"@,
        Type::Function => "function"@,
        Type::Addr => "addr"@,
        Type::Closure => "closure"@,
        Type::Union(ts) => joined_names(ts, ts.len() as nat),
        Type::Type => "type"@,
    }
}

/// The names of the first `n` members of `ts`, separated by `|`.
pub open spec fn joined_names(ts: Vec<Type>, n: nat) -> Seq<char>
    decreases ts, n,
{
    if n == 0 || n > ts.len() {
        Seq::empty()
    } else if n == 1 {
        name_of(ts[0])
    } else {
        joined_names(ts, (n - 1) as nat) + "|"@ + name_of(ts[n - 1])
    }
}

/// Two types are the same tree of tags: what a copy of a type is.
pub open spec fn same_type(a: Type, b: Type) -> bool
    decreases a, 0nat,
{
    match a {
        Type::Union(xs) => match b {
            Type::Union(ys) => xs.len() == ys.len() && same_members(xs, ys, xs.len() as nat),
            _ => false,
        },
        _ => a == b,
    }
}

/// The first `n` members of `xs` and of `ys` are pairwise the same types.
pub open spec fn same_members(xs: Vec<Type>, ys: Vec<Type>, n: nat) -> bool
    decreases xs, n,
{
    if n == 0 {
        true
    } else if n > xs.len() || n > ys.len() {
        false
    } else {
        same_type(xs[n - 1], ys[n - 1]) && same_members(xs, ys, (n - 1) as nat)
    }
}

/// `same_members` reads only the first `n` members of each side.
proof fn lemma_same_members_prefix(xs: Vec<Type>, ys: Vec<Type>, zs: Vec<Type>, n: nat)
    requires
        same_members(xs, ys, n),
        n <= zs.len(),
        forall|k: int| 0 <= k < n ==> zs[k] == xs[k],
    ensures
        same_members(zs, ys, n),
    decreases n,
{
    if n > 0 {
        lemma_same_members_prefix(xs, ys, zs, (n - 1) as nat);
    }
}

impl Type {
    /// A copy of the type.
    pub fn duplicate(&self) -> (r: Type)
        ensures
            same_type(r, *self),
        decreases *self,
    {
        match self {
            Type::Undefined => Type::Undefined,
            Type::Any => Type::Any,
            Type::Int => Type::Int,
            Type::Float => Type::Float,
            Type::Bool => Type::Bool,
            Type::String => Type::String,
            Type::NativeFunction => Type::NativeFunction,
            Type::Function => Type::Function,
            Type::Addr => Type::Addr,
            Type::Closure => Type::Closure,
            Type::Union(ts) => Type::Union(Self::duplicate_all(ts)),
            Type::Type => Type::Type,
        }
    }

    /// Copies of the types of `ts`, in order.
    pub fn duplicate_all(ts: &Vec<Type>) -> (r: Vec<Type>)
        ensures
            r.len() == ts.len(),
            same_members(r, *ts, ts.len() as nat),
        decreases *ts, 0nat,
    {
        let mut out: Vec<Type> = Vec::new();
        let mut i: usize = 0;
        while i < ts.len()
            invariant
                0 <= i <= ts.len(),
                out.len() == i,
                same_members(out, *ts, i as nat),
            decreases ts.len() - i,
        {
            proof {
                assert(decreases_to!(*ts => ts[i as int]));
            }
            let c = ts[i].duplicate();
            let ghost before = out;
            out.push(c);
            proof {
                lemma_same_members_prefix(before, *ts, out, i as nat);
            }
            i += 1;
        }
        out
    }

    /// The display name of the type.
    pub fn to_string(&self) -> (r: String)
        ensures
            r@ == name_of(*self),
        decreases *self,
    {
        match self {
            Type::Undefined => String::from_str("undefined"),
            Type::Any => String::from_str("any"),
            Type::Int => String::from_str("int"),
            Type::Float => String::from_str("float"),
            Type::Bool => String::from_str("bool"),
            Type::String => String::from_str("str"),
            Type::NativeFunction => String::from_str("nativ-function"),
            Type::Function => String::from_str("function"),
            Type::Addr => String::from_str("addr"),
            Type::Closure => String::from_str("closure"),
            Type::Union(ts) => {
                let mut out = String::new();
                let mut i: usize = 0;
                while i < ts.len()
                    invariant
                        0 <= i <= ts.len(),
                        out@ == joined_names(*ts, i as nat),
                        *self == Type::Union(*ts),
                    decreases ts.len() - i,
                {
                    proof {
                        assert(decreases_to!(*self => self->Union_0));
                        assert(decreases_to!(self->Union_0 => self->Union_0[i as int]));
                    }
                    if i > 0 {
                        out.append("|");
                    }
                    let name = ts[i].to_string();
                    out.append(name.as_str());
                    i += 1;
                }
                out
            },
            Type::Type => String::from_str("type"),
        }
    }

    /// Compares two types by the rules of `type_eq`.
    pub fn equals(&self, other: &Type) -> (r: bool)
        ensures
            r == type_eq(*self, *other),
        decreases *self, *other, 0nat,
    {
        if let Type::Any = self {
            return true;
        }
        if let Type::Any = other {
            return true;
        }
        match self {
            Type::Union(xs) => match other {
                Type::Union(ys) => Self::covers_all(xs, ys),
                _ => Self::some_member_matches(xs, other),
            },
            _ => match other {
                Type::Union(ys) => self.matches_some_member(ys),
                _ => Self::same_tag_exec(self, other),
            },
        }
    }

    fn some_member_matches(xs: &Vec<Type>, t: &Type) -> (r: bool)
        ensures
            r == some_matches(*xs, *t, xs.len() as nat),
        decreases *xs, *t, xs.len(),
    {
        let mut i: usize = 0;
        while i < xs.len()
            invariant
                0 <= i <= xs.len(),
                !some_matches(*xs, *t, i as nat),
            decreases xs.len() - i,
        {
            proof {
                assert(decreases_to!(*xs => xs[i as int]));
            }
            if xs[i].equals(t) {
                assert(some_matches(*xs, *t, (i + 1) as nat));
                proof { lemma_some_matches_grows(*xs, *t, (i + 1) as nat, xs.len() as nat); }
                return true;
            }
            i += 1;
        }
        false
    }

    fn matches_some_member(&self, ys: &Vec<Type>) -> (r: bool)
        ensures
            r == matches_some(*self, *ys, ys.len() as nat),
        decreases *self, *ys, ys.len(),
    {
        let mut j: usize = 0;
        while j < ys.len()
            invariant
                0 <= j <= ys.len(),
                !matches_some(*self, *ys, j as nat),
            decreases ys.len() - j,
        {
            proof {
                assert(decreases_to!(*ys => ys[j as int]));
            }
            if self.equals(&ys[j]) {
                assert(matches_some(*self, *ys, (j + 1) as nat));
                proof { lemma_matches_some_grows(*self, *ys, (j + 1) as nat, ys.len() as nat); }
                return true;
            }
            j += 1;
        }
        false
    }

    fn covers_all(xs: &Vec<Type>, ys: &Vec<Type>) -> (r: bool)
        ensures
            r == covers(*xs, *ys, ys.len() as nat),
        decreases *xs, *ys, ys.len(),
    {
        let mut j: usize = 0;
        while j < ys.len()
            invariant
                0 <= j <= ys.len(),
                covers(*xs, *ys, j as nat),
            decreases ys.len() - j,
        {
            proof {
                assert(decreases_to!(*ys => ys[j as int]));
            }
            if !Self::some_member_matches(xs, &ys[j]) {
                assert(!covers(*xs, *ys, (j + 1) as nat));
                proof { lemma_covers_shrinks(*xs, *ys, (j + 1) as nat, ys.len() as nat); }
                return false;
            }
            j += 1;
        }
        true
    }

    fn same_tag_exec(a: &Type, b: &Type) -> (r: bool)
        ensures
            r == same_tag(*a, *b),
    {
        match (a, b) {
            (Type::Undefined, Type::Undefined) => true,
            (Type::Any, Type::Any) => true,
            (Type::Int, Type::Int) => true,
            (Type::Float, Type::Float) => true,
            (Type::Bool, Type::Bool) => true,
            (Type::String, Type::String) => true,
            (Type::NativeFunction, Type::NativeFunction) => true,
            (Type::Function, Type::Function) => true,
            (Type::Addr, Type::Addr) => true,
            (Type::Closure, Type::Closure) => true,
            (Type::Type, Type::Type) => true,
            _ => false,
        }
    }
}

pub proof fn lemma_some_matches_grows(xs: Vec<Type>, b: Type, m: nat, n: nat)
    requires
        m <= n <= xs.len(),
        some_matches(xs, b, m),
    ensures
        some_matches(xs, b, n),
    decreases n - m,
{
    if m < n {
        lemma_some_matches_grows(xs, b, m, (n - 1) as nat);
    }
}

proof fn lemma_matches_some_grows(a: Type, ys: Vec<Type>, m: nat, n: nat)
    requires
        m <= n <= ys.len(),
        matches_some(a, ys, m),
    ensures
        matches_some(a, ys, n),
    decreases n - m,
{
    if m < n {
        lemma_matches_some_grows(a, ys, m, (n - 1) as nat);
    }
}

proof fn lemma_covers_shrinks(xs: Vec<Type>, ys: Vec<Type>, m: nat, n: nat)
    requires
        m <= n <= ys.len(),
        !covers(xs, ys, m),
    ensures
        !covers(xs, ys, n),
    decreases n - m,
{
    if m < n {
        lemma_covers_shrinks(xs, ys, m, (n - 1) as nat);
    }
}

impl Clone for Type {
    fn clone(&self) -> Type {
        self.duplicate()
    }
}

impl PartialEq for Type {
    fn eq(&self, other: &Type) -> (r: bool) {
        self.equals(other)
    }
}

impl vstd::std_specs::cmp::PartialEqSpecImpl for Type {
    open spec fn obeys_eq_spec() -> bool {
        true
    }

    open spec fn eq_spec(&self, other: &Type) -> bool {
        type_eq(*self, *other)
    }
}

} // verus!
