use vstd::prelude::*;

verus! {

/// A character allowed inside one element of an object path.
pub open spec fn is_path_char(c: char) -> bool {
    ('A' <= c && c <= 'Z') || ('a' <= c && c <= 'z') || ('0' <= c && c <= '9') || c == '_'
}

/// The object-path grammar of the bus: `/`, or `/` followed by non-empty
/// elements of `[A-Za-z0-9_]` separated by single slashes.
pub open spec fn is_object_path(s: Seq<char>) -> bool {
    &&& s.len() >= 1
    &&& s[0] == '/'
    &&& forall|i: int| 0 <= i < s.len() ==> (is_path_char(#[trigger] s[i]) || s[i] == '/')
    &&& forall|i: int| 1 <= i < s.len() && #[trigger] s[i] == '/' ==> s[i - 1] != '/'
    &&& s.len() > 1 ==> s[s.len() - 1] != '/'
}

fn path_char(c: char) -> (r: bool)
    ensures
        r == is_path_char(c),
{
    ('A' <= c && c <= 'Z') || ('a' <= c && c <= 'z') || ('0' <= c && c <= '9') || c == '_'
}

/// Whether `s` follows the object-path grammar.
pub fn valid_object_path(s: &str) -> (r: bool)
    ensures
        r == is_object_path(s@),
{
    let n = s.unicode_len();
    if n == 0 || s.get_char(0) != '/' {
        return false;
    }
    let mut i: usize = 1;
    while i < n
        invariant
            n == s@.len(),
            1 <= i <= n,
            s@[0] == '/',
            forall|j: int| 0 <= j < i ==> (is_path_char(#[trigger] s@[j]) || s@[j] == '/'),
            forall|j: int| 1 <= j < i && #[trigger] s@[j] == '/' ==> s@[j - 1] != '/',
        decreases n - i,
    {
        let c = s.get_char(i);
        if c == '/' {
            if s.get_char(i - 1) == '/' {
                return false;
            }
        } else if !path_char(c) {
            return false;
        }
        i = i + 1;
    }
    if n > 1 && s.get_char(n - 1) == '/' {
        return false;
    }
    true
}

/// The address of an object exported on the bus.
#[derive(Clone, Debug, PartialEq, Eq, Hash)]
pub struct ObjectPath {
    path: String,
}

impl View for ObjectPath {
    type V = Seq<char>;

    closed spec fn view(&self) -> Seq<char> {
        self.path@
    }
}

impl ObjectPath {
    /// Whether the held text follows the object-path grammar.
    pub closed spec fn wf(&self) -> bool {
        is_object_path(self.path@)
    }

    /// The path `s`, or `None` where `s` breaks the object-path grammar.
    pub fn new(s: String) -> (r: Option<ObjectPath>)
        ensures
            r is Some <==> is_object_path(s@),
            r matches Some(p) ==> p@ == s@ && p.wf(),
    {
        if valid_object_path(s.as_str()) {
            Some(ObjectPath { path: s })
        } else {
            None
        }
    }

    /// The path as text.
    pub fn as_str(&self) -> (r: &str)
        ensures
            r@ == self@,
    {
        self.path.as_str()
    }

    /// A path spelled by the library itself.
    pub(crate) fn from_known(s: &str) -> (r: ObjectPath)
        ensures
            r@ == s@,
    {
        ObjectPath { path: s.to_owned() }
    }

    /// A copy of this path.
    pub fn duplicate(&self) -> (r: ObjectPath)
        ensures
            r == *self,
    {
        ObjectPath { path: self.path.clone() }
    }
}

/// The type of one value on the wire.
#[derive(Clone, Copy, Debug, PartialEq, Eq, Structural)]
pub enum WireKind {
    Bool,
    Int32,
    Uint32,
    Uint64,
    Str,
    ObjPath,
    StrArray,
    Array,
    Struct,
    Dict,
}

/// One value on the wire: a basic value, an array, or a string-keyed
/// dictionary of variants.
#[derive(Debug, PartialEq)]
pub enum WireValue {
    Bool(bool),
    Int32(i32),
    Uint32(u32),
    Uint64(u64),
    Str(String),
    ObjPath(ObjectPath),
    StrArray(Vec<String>),
    Array(Vec<WireValue>),
    Struct(Vec<WireValue>),
    Dict(Vec<(String, WireValue)>),
}

/// The type of a value.
pub open spec fn kind_of(v: WireValue) -> WireKind {
    match v {
        WireValue::Bool(_) => WireKind::Bool,
        WireValue::Int32(_) => WireKind::Int32,
        WireValue::Uint32(_) => WireKind::Uint32,
        WireValue::Uint64(_) => WireKind::Uint64,
        WireValue::Str(_) => WireKind::Str,
        WireValue::ObjPath(_) => WireKind::ObjPath,
        WireValue::StrArray(_) => WireKind::StrArray,
        WireValue::Array(_) => WireKind::Array,
        WireValue::Struct(_) => WireKind::Struct,
        WireValue::Dict(_) => WireKind::Dict,
    }
}

/// The positional shape of a list of values.
pub open spec fn kinds(s: Seq<WireValue>) -> Seq<WireKind> {
    Seq::new(s.len(), |i: int| kind_of(s[i]))
}

/// The element at `i`, if there is one.
pub open spec fn kind_at(s: Seq<WireKind>, i: int) -> Option<WireKind> {
    if 0 <= i < s.len() {
        Some(s[i])
    } else {
        None
    }
}

/// `p` is the first position where `actual` and `expected` part.
pub open spec fn first_difference(actual: Seq<WireKind>, expected: Seq<WireKind>, p: int) -> bool {
    &&& 0 <= p <= actual.len()
    &&& p <= expected.len()
    &&& forall|i: int| 0 <= i < p ==> actual[i] == expected[i]
    &&& kind_at(actual, p) != kind_at(expected, p)
}

/// Where a list of values first breaks an expected shape.
#[derive(Clone, Copy, Debug, PartialEq, Eq, Structural)]
pub struct TypeMismatchError {
    pub position: usize,
    pub expected: Option<WireKind>,
    pub found: Option<WireKind>,
}

/// `e` reports the first place where `actual` breaks `expected`.
pub open spec fn reports_mismatch(e: TypeMismatchError, actual: Seq<WireKind>, expected: Seq<WireKind>) -> bool {
    &&& first_difference(actual, expected, e.position as int)
    &&& e.expected == kind_at(expected, e.position as int)
    &&& e.found == kind_at(actual, e.position as int)
}

impl WireValue {
    /// The type of this value.
    pub fn kind(&self) -> (r: WireKind)
        ensures
            r == kind_of(*self),
    {
        match self {
            WireValue::Bool(_) => WireKind::Bool,
            WireValue::Int32(_) => WireKind::Int32,
            WireValue::Uint32(_) => WireKind::Uint32,
            WireValue::Uint64(_) => WireKind::Uint64,
            WireValue::Str(_) => WireKind::Str,
            WireValue::ObjPath(_) => WireKind::ObjPath,
            WireValue::StrArray(_) => WireKind::StrArray,
            WireValue::Array(_) => WireKind::Array,
            WireValue::Struct(_) => WireKind::Struct,
            WireValue::Dict(_) => WireKind::Dict,
        }
    }
}

/// Checks `args` against the positional shape `expected`: `Ok` exactly when
/// they match, else the first position where they part.
pub fn check_shape(args: &Vec<WireValue>, expected: &Vec<WireKind>) -> (r: Result<(), TypeMismatchError>)
    ensures
        r is Ok <==> kinds(args@) == expected@,
        r matches Err(e) ==> reports_mismatch(e, kinds(args@), expected@),
{
    let ghost actual = kinds(args@);
    let mut i: usize = 0;
    while i < args.len() && i < expected.len()
        invariant
            actual == kinds(args@),
            0 <= i <= args.len(),
            i <= expected.len(),
            forall|j: int| 0 <= j < i ==> actual[j] == expected@[j],
        decreases args.len() - i,
    {
        let k = args[i].kind();
        if k != expected[i] {
            let e = TypeMismatchError { position: i, expected: Some(expected[i]), found: Some(k) };
            assert(actual[i as int] == k);
            return Err(e);
        }
        i = i + 1;
    }
    if i == args.len() && i == expected.len() {
        assert(actual =~= expected@);
        return Ok(());
    }
    let found = if i < args.len() {
        Some(args[i].kind())
    } else {
        None
    };
    let want = if i < expected.len() {
        Some(expected[i])
    } else {
        None
    };
    Err(TypeMismatchError { position: i, expected: want, found })
}

/// Takes the last value off `args`.
pub(crate) fn take_last(args: &mut Vec<WireValue>) -> (r: WireValue)
    requires
        old(args).len() > 0,
    ensures
        r == old(args)@.last(),
        final(args)@ == old(args)@.drop_last(),
{
    match args.pop() {
        Some(v) => v,
        None => WireValue::Bool(false),
    }
}

pub(crate) fn into_bool(v: WireValue) -> (r: bool)
    requires
        v is Bool,
    ensures
        r == v->Bool_0,
{
    match v {
        WireValue::Bool(b) => b,
        _ => false,
    }
}

pub(crate) fn into_u32(v: WireValue) -> (r: u32)
    requires
        v is Uint32,
    ensures
        r == v->Uint32_0,
{
    match v {
        WireValue::Uint32(n) => n,
        _ => 0,
    }
}

pub(crate) fn into_u64(v: WireValue) -> (r: u64)
    requires
        v is Uint64,
    ensures
        r == v->Uint64_0,
{
    match v {
        WireValue::Uint64(n) => n,
        _ => 0,
    }
}

pub(crate) fn into_string(v: WireValue) -> (r: String)
    requires
        v is Str,
    ensures
        r == v->Str_0,
{
    match v {
        WireValue::Str(s) => s,
        _ => String::new(),
    }
}

pub(crate) fn into_path(v: WireValue) -> (r: ObjectPath)
    requires
        v is ObjPath,
    ensures
        r == v->ObjPath_0,
{
    match v {
        WireValue::ObjPath(p) => p,
        _ => ObjectPath { path: String::new() },
    }
}

pub(crate) fn into_strings(v: WireValue) -> (r: Vec<String>)
    requires
        v is StrArray,
    ensures
        r == v->StrArray_0,
{
    match v {
        WireValue::StrArray(a) => a,
        _ => Vec::new(),
    }
}

pub(crate) fn into_items(v: WireValue) -> (r: Vec<WireValue>)
    requires
        v is Array || v is Struct,
    ensures
        v is Array ==> r == v->Array_0,
        v is Struct ==> r == v->Struct_0,
{
    match v {
        WireValue::Array(a) => a,
        WireValue::Struct(a) => a,
        _ => Vec::new(),
    }
}

pub(crate) fn into_entries(v: WireValue) -> (r: Vec<(String, WireValue)>)
    requires
        v is Dict,
    ensures
        r == v->Dict_0,
{
    match v {
        WireValue::Dict(d) => d,
        _ => Vec::new(),
    }
}

} // verus!
