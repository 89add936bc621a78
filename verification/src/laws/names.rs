//! What a module name stands for, on the bytes of the names themselves.

use vstd::prelude::*;
use vstd::utf8::{decode_utf8, encode_utf8, valid_utf8};

use crate::call::{Asked, Finished, LoaderRef, Next, SpecCall, Step};
use crate::cstring::{
    lemma_first_zero, lemma_first_zero_unique, make_cstring, zero_byte_error, zero_free, CString,
};
use crate::error::{NulErrorOf, SpecValueError, ValueError};
use crate::loader::{
    default_module_normalize_func, quickjs_rs_module_normalize_func, FsJsModuleLoader, NamePending,
    NormalizePending, ResolvePending,
};
use crate::path::{
    directory, last_element, lemma_last_slash, lemma_last_slash_unique, normalize, resolve,
};
use crate::value::Pointer;

verus! {

pub(crate) proof fn lemma_clean(bytes: Seq<u8>)
    requires
        !bytes.contains(0u8),
    ensures
        zero_free(bytes),
{
}

pub(crate) proof fn lemma_zero_at(bytes: Seq<u8>, p: usize)
    requires
        p < bytes.len(),
        bytes[p as int] == 0,
        !bytes.take(p as int).contains(0u8),
    ensures
        !zero_free(bytes),
        zero_byte_error(bytes) == SpecValueError::StringWithZeroBytes(
            NulErrorOf { position: p, bytes },
        ),
{
    lemma_clean(bytes.take(p as int));
    lemma_first_zero_unique(bytes, p as int);
}

/// Bytes without a zero byte become the C string of those bytes.
pub proof fn law_c_string_keeps_bytes(value: Vec<u8>, result: Result<CString, ValueError>)
    requires
        !value@.contains(0u8),
        call_ensures(make_cstring, (value,), result),
    ensures
        result matches Ok(text) && text@ == value@,
{
    lemma_clean(value@);
}

/// Bytes with a zero byte are refused, with the position of the first one and the bytes.
pub proof fn law_zero_byte_is_refused(value: Vec<u8>, p: usize, result: Result<CString, ValueError>)
    requires
        p < value@.len(),
        value@[p as int] == 0,
        !value@.take(p as int).contains(0u8),
        call_ensures(make_cstring, (value,), result),
    ensures
        result matches Err(error) && error@ == SpecValueError::StringWithZeroBytes(
            NulErrorOf { position: p, bytes: value@ },
        ),
{
    lemma_zero_at(value@, p);
}

/// A C string gives back the bytes that it was made of, and so does a copy of it.
pub proof fn law_c_string_round_trip(
    value: Vec<u8>,
    text: CString,
    bytes: &[u8],
    copy: CString,
    copied: &[u8],
)
    requires
        call_ensures(make_cstring, (value,), Ok(text)),
        call_ensures(CString::as_bytes, (&text,), bytes),
        call_ensures(CString::duplicate, (&text,), copy),
        call_ensures(CString::as_bytes, (&copy,), copied),
    ensures
        bytes@ == value@,
        copied@ == value@,
{
}

/// A file loader gives back the directory that it was made for.
pub proof fn law_file_loader_keeps_directory(
    base: &str,
    loader: FsJsModuleLoader,
    kept: &str,
)
    requires
        call_ensures(FsJsModuleLoader::new, (base,), loader),
        call_ensures(FsJsModuleLoader::base, (&loader,), kept),
    ensures
        kept@ == base@,
{
}

/// What stands before the last slash of a path is its directory, all of it; what stands behind it
/// is its last element. A path without a slash has no directory.
proof fn lemma_split(path: Seq<u8>, d: Seq<u8>, file: Seq<u8>)
    requires
        path == d + seq![0x2fu8] + file,
        !file.contains(0x2fu8),
    ensures
        directory(path) == d,
        last_element(path) == file,
{
    let p = d.len() as int;
    assert(path[p] == 0x2f);
    assert forall|i: int| p < i < path.len() implies path[i] != 0x2f by {
        assert(path[i] == file[i - p - 1]);
    }
    lemma_last_slash_unique(path, p);
    assert(path.take(p) =~= d);
    assert(path.skip(p + 1) =~= file);
}

proof fn lemma_no_slash(path: Seq<u8>)
    requires
        !path.contains(0x2fu8),
    ensures
        directory(path) == Seq::<u8>::empty(),
        last_element(path) == path,
{
    lemma_last_slash(path);
}

/// Whether a name begins with `./` or with `../`.
spec fn has_step(name: Seq<u8>) -> bool {
    (name.len() >= 2 && name[0] == 0x2e && name[1] == 0x2f) || (name.len() >= 3 && name[0] == 0x2e
        && name[1] == 0x2e && name[2] == 0x2f)
}

proof fn lemma_stepless(dir: Seq<u8>, rest: Seq<u8>)
    requires
        !has_step(rest),
    ensures
        resolve(dir, rest) == if dir.len() == 0 {
            rest
        } else {
            dir + seq![0x2fu8] + rest
        },
{
    assert(dir.push(0x2f) + rest =~= dir + seq![0x2fu8] + rest);
}

proof fn lemma_here(dir: Seq<u8>, rest: Seq<u8>)
    ensures
        resolve(dir, seq![0x2eu8, 0x2fu8] + rest) == resolve(dir, rest),
{
    reveal_with_fuel(resolve, 2);
    assert((seq![0x2eu8, 0x2fu8] + rest).skip(2) =~= rest);
}

/// A name that does not begin with a dot is the full name, whatever module imports it.
pub proof fn law_absolute_name(base: &[u8], name: &[u8], full: Vec<u8>)
    requires
        name@.len() == 0 || name@[0] != 0x2e,
        call_ensures(normalize, (base, name), full),
    ensures
        full@ == name@,
{
}

/// A name behind `./` is taken from where the importing module stands: all that the importing
/// module's name holds up to and with its last slash is put before it.
pub proof fn law_name_beside(
    base: &[u8],
    d: Seq<u8>,
    file: Seq<u8>,
    name: &[u8],
    rest: Seq<u8>,
    full: Vec<u8>,
)
    requires
        base@ == d + seq![0x2fu8] + file,
        !file.contains(0x2fu8),
        d.len() > 0,
        name@ == seq![0x2eu8, 0x2fu8] + rest,
        !(rest.len() >= 2 && rest[0] == 0x2e && rest[1] == 0x2f),
        !(rest.len() >= 3 && rest[0] == 0x2e && rest[1] == 0x2e && rest[2] == 0x2f),
        call_ensures(normalize, (base, name), full),
    ensures
        full@ == d + seq![0x2fu8] + rest,
        directory(base@) == d,
{
    lemma_split(base@, d, file);
    lemma_here(d, rest);
    lemma_stepless(d, rest);
}

/// From a module in no directory, or in the root, a name behind `./` is the full name.
pub proof fn law_name_beside_top(
    base: &[u8],
    file: Seq<u8>,
    name: &[u8],
    rest: Seq<u8>,
    full: Vec<u8>,
)
    requires
        base@ == file || base@ == seq![0x2fu8] + file,
        !file.contains(0x2fu8),
        name@ == seq![0x2eu8, 0x2fu8] + rest,
        !(rest.len() >= 2 && rest[0] == 0x2e && rest[1] == 0x2f),
        !(rest.len() >= 3 && rest[0] == 0x2e && rest[1] == 0x2e && rest[2] == 0x2f),
        call_ensures(normalize, (base, name), full),
    ensures
        full@ == rest,
{
    let none = Seq::<u8>::empty();
    if base@ == file {
        lemma_no_slash(base@);
    } else {
        assert(base@ =~= none + seq![0x2fu8] + file);
        lemma_split(base@, none, file);
    }
    lemma_here(none, rest);
    lemma_stepless(none, rest);
}

/// A name that begins with a dot, but with neither `./` nor `../`, is taken from where the
/// importing module stands, too: as if `./` stood before it.
pub proof fn law_dotted_name(
    base: &[u8],
    name: &[u8],
    full: Vec<u8>,
    stepped: &[u8],
    stepped_full: Vec<u8>,
)
    requires
        name@.len() > 0 && name@[0] == 0x2e,
        stepped@ == seq![0x2eu8, 0x2fu8] + name@,
        call_ensures(normalize, (base, name), full),
        call_ensures(normalize, (base, stepped), stepped_full),
    ensures
        full@ == stepped_full@,
{
    lemma_here(directory(base@), name@);
}

/// `../` leaves the innermost directory of the importing module: the name is what it would be,
/// behind `./`, in a module one directory above.
pub proof fn law_name_above(
    base: &[u8],
    d: Seq<u8>,
    e: Seq<u8>,
    file: Seq<u8>,
    above: &[u8],
    above_file: Seq<u8>,
    rest: Seq<u8>,
    name: &[u8],
    full: Vec<u8>,
    above_name: &[u8],
    above_full: Vec<u8>,
)
    requires
        base@ == d + seq![0x2fu8] + e + seq![0x2fu8] + file,
        !e.contains(0x2fu8) && !file.contains(0x2fu8) && !above_file.contains(0x2fu8),
        e != seq![0x2eu8] && e != seq![0x2eu8, 0x2eu8],
        above@ == d + seq![0x2fu8] + above_file,
        name@ == seq![0x2eu8, 0x2eu8, 0x2fu8] + rest,
        above_name@ == seq![0x2eu8, 0x2fu8] + rest,
        call_ensures(normalize, (base, name), full),
        call_ensures(normalize, (above, above_name), above_full),
    ensures
        full@ == above_full@,
{
    let dir = d + seq![0x2fu8] + e;
    assert(base@ =~= dir + seq![0x2fu8] + file);
    lemma_split(base@, dir, file);
    lemma_split(dir, d, e);
    lemma_split(above@, d, above_file);
    lemma_here(d, rest);
    reveal_with_fuel(resolve, 2);
    assert(name@.skip(3) =~= rest);
}

/// `../` from a module in a single directory leads to where there is none.
pub proof fn law_name_above_top(
    base: &[u8],
    e: Seq<u8>,
    file: Seq<u8>,
    above: &[u8],
    rest: Seq<u8>,
    name: &[u8],
    full: Vec<u8>,
    above_name: &[u8],
    above_full: Vec<u8>,
)
    requires
        base@ == e + seq![0x2fu8] + file,
        e.len() > 0,
        !e.contains(0x2fu8) && !file.contains(0x2fu8) && !above@.contains(0x2fu8),
        e != seq![0x2eu8] && e != seq![0x2eu8, 0x2eu8],
        name@ == seq![0x2eu8, 0x2eu8, 0x2fu8] + rest,
        above_name@ == seq![0x2eu8, 0x2fu8] + rest,
        call_ensures(normalize, (base, name), full),
        call_ensures(normalize, (above, above_name), above_full),
    ensures
        full@ == above_full@,
{
    lemma_split(base@, e, file);
    lemma_no_slash(e);
    lemma_no_slash(above@);
    lemma_here(Seq::empty(), rest);
    reveal_with_fuel(resolve, 2);
    assert(name@.skip(3) =~= rest);
}

/// `../` that has no directory to leave stays: from a module in no directory, or in the root, the
/// name is the full name.
pub proof fn law_nothing_above_top(
    base: &[u8],
    file: Seq<u8>,
    name: &[u8],
    rest: Seq<u8>,
    full: Vec<u8>,
)
    requires
        base@ == file || base@ == seq![0x2fu8] + file,
        !file.contains(0x2fu8),
        name@ == seq![0x2eu8, 0x2eu8, 0x2fu8] + rest,
        call_ensures(normalize, (base, name), full),
    ensures
        full@ == name@,
{
    if base@ == file {
        lemma_no_slash(base@);
    } else {
        assert(base@ =~= Seq::<u8>::empty() + seq![0x2fu8] + file);
        lemma_split(base@, Seq::empty(), file);
    }
}

/// `../` does not leave a directory whose last element is `.` or `..`: the whole name is put behind
/// that directory.
pub proof fn law_dots_are_not_left(
    base: &[u8],
    d: Seq<u8>,
    x: Seq<u8>,
    e: Seq<u8>,
    file: Seq<u8>,
    name: &[u8],
    rest: Seq<u8>,
    full: Vec<u8>,
)
    requires
        base@ == d + seq![0x2fu8] + file,
        !file.contains(0x2fu8),
        d == e || d == x + seq![0x2fu8] + e,
        e == seq![0x2eu8] || e == seq![0x2eu8, 0x2eu8],
        name@ == seq![0x2eu8, 0x2eu8, 0x2fu8] + rest,
        call_ensures(normalize, (base, name), full),
    ensures
        full@ == d + seq![0x2fu8] + name@,
{
    lemma_split(base@, d, file);
    assert(!e.contains(0x2fu8));
    if d == e {
        lemma_no_slash(d);
    } else {
        lemma_split(d, x, e);
    }
    assert(d.push(0x2f) + name@ =~= d + seq![0x2fu8] + name@);
}

/// The default rule hands the engine the full name: a copy of a name that does not begin with a
/// dot, and for any other a block, of a size for what stands before the last slash of the importing
/// module's name, for the name, for a slash and for the terminator.
pub proof fn law_default_rule_hands_full_name(
    context: Pointer,
    base: CString,
    d: Seq<u8>,
    file: Seq<u8>,
    name: CString,
    asked: Asked<NamePending>,
    base_bytes: &[u8],
    name_bytes: &[u8],
    full: Vec<u8>,
)
    requires
        base@.len() + name@.len() + 2 <= usize::MAX,
        base@ == d + seq![0x2fu8] + file || (d.len() == 0 && base@ == file),
        !file.contains(0x2fu8),
        base_bytes@ == base@,
        name_bytes@ == name@,
        call_ensures(default_module_normalize_func, (context, &base, &name), asked),
        call_ensures(normalize, (base_bytes, name_bytes), full),
    ensures
        name@.len() > 0 && name@[0] == 0x2e ==> {
            &&& asked.issued() == seq![
                SpecCall::Malloc { context, size: (d.len() + name@.len() + 2) as usize },
            ]
            &&& asked.pending matches NamePending::Block(text) && text@ == full@
        },
        name@.len() == 0 || name@[0] != 0x2e ==> {
            &&& asked.issued() == seq![SpecCall::Strdup { context, text: name@ }]
            &&& asked.pending is Copy
        },
{
    if base@ == d + seq![0x2fu8] + file {
        lemma_split(base@, d, file);
    } else {
        lemma_no_slash(base@);
        assert(d =~= Seq::<u8>::empty());
    }
}

/// What is written into a block is the whole name, and the block is what the engine gets; a copy,
/// and null, are handed on as they are.
pub proof fn law_name_is_written(pending: NamePending, pointer: Pointer, end: Finished<Pointer>)
    requires
        call_ensures(NamePending::obtained, (pending, pointer), end),
    ensures
        end.result == pointer,
        pending is Copy || pointer == 0 ==> end.issued().len() == 0,
        pointer != 0 ==> (pending matches NamePending::Block(text) ==> end.issued() == seq![
            SpecCall::WriteString { block: pointer, text: text@ },
        ]),
{
}

/// Where a loader is set, it is asked for every import whose names are text, relative or not: that
/// is the one call, with both names as they are.
pub proof fn law_loader_resolves_every_name(
    context: Pointer,
    base: CString,
    name: CString,
    loader: Option<LoaderRef>,
    step: Step<NormalizePending, Pointer>,
)
    requires
        loader is Some,
        valid_utf8(base@),
        valid_utf8(name@),
        call_ensures(
            quickjs_rs_module_normalize_func,
            (context, Some(&base), Some(&name), loader),
            step,
        ),
    ensures
        step.issued() == seq![
            SpecCall::ResolveModule {
                loader: loader->0,
                base: decode_utf8(base@),
                name: decode_utf8(name@),
            },
        ],
        step.next matches Next::Await(NormalizePending::Resolve(pending)) && pending.context
            == context && pending.base@ == base@ && pending.name@ == name@,
{
}

/// The name that the loader gives for an import is the module's full name: its bytes are handed to
/// the engine, and nothing else. `pointer` is the copy of it.
pub proof fn law_loader_names_the_module(
    context: Pointer,
    base: CString,
    name: CString,
    loader: Option<LoaderRef>,
    step: Step<NormalizePending, Pointer>,
    text: String,
    asked: Asked<NamePending>,
    pointer: Pointer,
    end: Finished<Pointer>,
)
    requires
        loader is Some,
        valid_utf8(base@),
        valid_utf8(name@),
        !encode_utf8(text@).contains(0u8),
        call_ensures(
            quickjs_rs_module_normalize_func,
            (context, Some(&base), Some(&name), loader),
            step,
        ),
        step.next matches Next::Await(NormalizePending::Resolve(pending)) ==> call_ensures(
            ResolvePending::resolved,
            (pending, Some(text)),
            asked,
        ),
        call_ensures(NamePending::obtained, (asked.pending, pointer), end),
    ensures
        asked.issued() == seq![SpecCall::Strdup { context, text: encode_utf8(text@) }],
        end.issued().len() == 0,
        end.result == pointer,
{
    lemma_clean(encode_utf8(text@));
}

/// A loader's name with a zero byte in it becomes the empty name.
pub proof fn law_loader_name_with_zero_byte(
    pending: ResolvePending,
    text: String,
    asked: Asked<NamePending>,
)
    requires
        encode_utf8(text@).contains(0u8),
        call_ensures(ResolvePending::resolved, (pending, Some(text)), asked),
    ensures
        asked.issued() == seq![
            SpecCall::Strdup { context: pending.context, text: Seq::<u8>::empty() },
        ],
        asked.pending is Copy,
{
    lemma_first_zero(encode_utf8(text@));
}

/// Where the loader gives no name, the default rule holds: the engine gets just what that gives.
pub proof fn law_loader_leaves_the_choice(
    pending: ResolvePending,
    asked: Asked<NamePending>,
    default: Asked<NamePending>,
)
    requires
        call_ensures(ResolvePending::resolved, (pending, None), asked),
        call_ensures(
            default_module_normalize_func,
            (pending.context, &pending.base, &pending.name),
            default,
        ),
    ensures
        asked.issued() == default.issued(),
        match (asked.pending, default.pending) {
            (NamePending::Copy, NamePending::Copy) => true,
            (NamePending::Block(a), NamePending::Block(b)) => a@ == b@,
            _ => false,
        },
{
}

/// Without a loader, and for names that are not text, the default rule holds.
pub proof fn law_no_loader_is_asked(
    context: Pointer,
    base: CString,
    name: CString,
    loader: Option<LoaderRef>,
    step: Step<NormalizePending, Pointer>,
    default: Asked<NamePending>,
)
    requires
        loader is None || !valid_utf8(base@) || !valid_utf8(name@),
        call_ensures(
            quickjs_rs_module_normalize_func,
            (context, Some(&base), Some(&name), loader),
            step,
        ),
        call_ensures(default_module_normalize_func, (context, &base, &name), default),
    ensures
        step.issued() == default.issued(),
        step.next matches Next::Await(NormalizePending::Name(pending)) && match (
            pending,
            default.pending,
        ) {
            (NamePending::Copy, NamePending::Copy) => true,
            (NamePending::Block(a), NamePending::Block(b)) => a@ == b@,
            _ => false,
        },
{
}

/// An import without one of its names is answered with null at once.
pub proof fn law_missing_name_is_null(
    context: Pointer,
    base: Option<&CString>,
    name: Option<&CString>,
    loader: Option<LoaderRef>,
    step: Step<NormalizePending, Pointer>,
)
    requires
        base is None || name is None,
        call_ensures(quickjs_rs_module_normalize_func, (context, base, name, loader), step),
    ensures
        step.issued().len() == 0,
        step.next == Next::<NormalizePending, Pointer>::Return(0),
{
}

} // verus!
