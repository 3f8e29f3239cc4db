//! Handle registries: every object the host holds is stored here and named
//! by an opaque `i32` handle.
//!
//! Each registry issues handles from its own counter, starting at 1, so
//! handle 0 is never issued and a freed handle is never issued again.
//! Handle lists carry the handles produced by one list or search call.

use std::collections::HashMap;

use vstd::prelude::*;

use crate::error::{classify_spec, code_value, fail, fail_sdk, LastError, NominalErrorCode, SdkFailure};
use crate::text::{append_signed, signed_decimal};

verus! {

broadcast use vstd::std_specs::hash::group_hash_axioms;

/// Objects of one kind, keyed by the handles issued for them.
#[derive(Debug)]
pub struct Registry<T> {
    map: HashMap<i32, T>,
    next: i32,
}

impl<T> View for Registry<T> {
    type V = Map<i32, T>;

    closed spec fn view(&self) -> Map<i32, T> {
        self.map@
    }
}

impl<T> Registry<T> {
    #[verifier::type_invariant]
    spec fn well_formed(self) -> bool {
        &&& 1 <= self.next
        &&& forall|h: i32| #[trigger] self.map@.contains_key(h) ==> 1 <= h < self.next
    }

    /// The handle the next insertion will issue.
    pub closed spec fn next_handle(&self) -> int {
        self.next as int
    }

    /// An empty registry whose first handle will be 1.
    pub fn new() -> (r: Self)
        ensures
            r@ == Map::<i32, T>::empty(),
            r.next_handle() == 1,
    {
        Registry { map: HashMap::new(), next: 1 }
    }

    /// The handle the next insertion will issue; every live handle is
    /// below it.
    pub fn peek_next(&self) -> (r: i32)
        ensures
            r == self.next_handle(),
            1 <= r,
            forall|h: i32| #[trigger] self@.contains_key(h) ==> 1 <= h < r,
    {
        proof {
            use_type_invariant(self);
        }
        self.next
    }

    /// Stores `value` under a fresh handle. Returns `None`, changing
    /// nothing, once the handle space is exhausted.
    pub fn insert(&mut self, value: T) -> (r: Option<i32>)
        ensures
            match r {
                Some(h) => {
                    &&& h == old(self).next_handle()
                    &&& 1 <= h
                    &&& !old(self)@.contains_key(h)
                    &&& final(self)@ == old(self)@.insert(h, value)
                    &&& final(self).next_handle() == h + 1
                },
                None => {
                    &&& old(self).next_handle() == i32::MAX
                    &&& final(self)@ == old(self)@
                    &&& final(self).next_handle() == old(self).next_handle()
                },
            },
    {
        proof {
            use_type_invariant(&*self);
        }
        if self.next == i32::MAX {
            return None;
        }
        let h = self.next;
        let mut map = HashMap::new();
        std::mem::swap(&mut map, &mut self.map);
        map.insert(h, value);
        self.next = h + 1;
        self.map = map;
        Some(h)
    }

    /// Whether `h` is a live handle.
    pub fn contains(&self, h: i32) -> (r: bool)
        ensures
            r == self@.contains_key(h),
    {
        self.map.contains_key(&h)
    }

    /// The object under `h`, if `h` is live.
    pub fn get(&self, h: i32) -> (r: Option<&T>)
        ensures
            match r {
                Some(v) => self@.contains_key(h) && *v == self@[h],
                None => !self@.contains_key(h),
            },
    {
        self.map.get(&h)
    }

    /// Removes `h` and returns its object, if `h` is live.
    pub fn remove(&mut self, h: i32) -> (r: Option<T>)
        ensures
            final(self)@ == old(self)@.remove(h),
            final(self).next_handle() == old(self).next_handle(),
            match r {
                Some(v) => old(self)@.contains_key(h) && v == old(self)@[h] && 1 <= h < old(self).next_handle(),
                None => !old(self)@.contains_key(h),
            },
    {
        proof {
            use_type_invariant(&*self);
        }
        let mut map = HashMap::new();
        std::mem::swap(&mut map, &mut self.map);
        let r = map.remove(&h);
        self.map = map;
        r
    }

    /// Puts an object back under a handle that was taken out with
    /// [`Registry::remove`].
    pub fn put_back(&mut self, h: i32, value: T)
        requires
            1 <= h < old(self).next_handle(),
        ensures
            final(self)@ == old(self)@.insert(h, value),
            final(self).next_handle() == old(self).next_handle(),
    {
        proof {
            use_type_invariant(&*self);
        }
        let mut map = HashMap::new();
        std::mem::swap(&mut map, &mut self.map);
        map.insert(h, value);
        self.map = map;
    }
}

/// The message for a handle that was never issued or was already freed.
pub open spec fn invalid_handle_msg(kind: Seq<char>, h: i32) -> Seq<char> {
    "invalid "@ + kind + " handle: "@ + signed_decimal(h as int)
}

/// What looking up `h` gives: its object, or the invalid-handle failure.
pub open spec fn lookup_step<T>(reg: Map<i32, T>, h: i32, kind: Seq<char>) -> Result<T, (NominalErrorCode, Seq<char>)> {
    if reg.contains_key(h) {
        Ok(reg[h])
    } else {
        Err((NominalErrorCode::InvalidHandle, invalid_handle_msg(kind, h)))
    }
}

/// Whether `code` and the new last-error message are those of failure `f`:
/// a failure code (never `Success`) and a message that is not empty.
pub open spec fn failed_with(code: i32, new_err: Seq<char>, f: (NominalErrorCode, Seq<char>)) -> bool {
    &&& code == code_value(f.0)
    &&& f.0 != NominalErrorCode::Success
    &&& new_err == f.1
    &&& f.1.len() > 0
}

/// Records the invalid-handle message for `h` and returns its code.
pub fn invalid_handle(err: &mut LastError, h: i32, kind: &str) -> (r: i32)
    ensures
        failed_with(r, final(err)@, (NominalErrorCode::InvalidHandle, invalid_handle_msg(kind@, h))),
{
    let mut m = String::from_str("invalid ");
    m.append(kind);
    m.append(" handle: ");
    append_signed(&mut m, h);
    proof {
        assert(m@ =~= invalid_handle_msg(kind@, h));
    }
    fail(err, NominalErrorCode::InvalidHandle, m)
}

/// Looks up `h`; a handle that is not live records the invalid-handle
/// message and yields its code.
pub fn lookup<'a, T>(reg: &'a Registry<T>, err: &mut LastError, h: i32, kind: &str) -> (r: Result<&'a T, i32>)
    ensures
        match lookup_step(reg@, h, kind@) {
            Ok(v) => (r matches Ok(x) && *x == v) && final(err)@ == old(err)@,
            Err(f) => r matches Err(c) && failed_with(c, final(err)@, f),
        },
{
    match reg.get(h) {
        Some(v) => Ok(v),
        None => Err(invalid_handle(err, h, kind)),
    }
}

/// Frees a handle: `0` when it was live, the invalid-handle code when it was
/// never issued or already freed.
pub fn free_handle<T>(reg: &mut Registry<T>, err: &mut LastError, h: i32, kind: &str) -> (r: i32)
    ensures
        final(reg)@ == old(reg)@.remove(h),
        final(reg).next_handle() == old(reg).next_handle(),
        old(reg)@.contains_key(h) ==> r == 0 && final(err)@ == old(err)@,
        !old(reg)@.contains_key(h) ==> failed_with(
            r,
            final(err)@,
            (NominalErrorCode::InvalidHandle, invalid_handle_msg(kind@, h)),
        ),
{
    match reg.remove(h) {
        Some(_) => 0,
        None => invalid_handle(err, h, kind),
    }
}

/// The message recorded when a registry has no handle left to issue.
pub open spec fn exhausted_msg() -> Seq<char> {
    "panic in FFI layer: handle space exhausted"@
}

/// Records that the handle space is exhausted and returns the panic code.
pub fn fail_exhausted(err: &mut LastError) -> (r: i32)
    ensures
        failed_with(r, final(err)@, (NominalErrorCode::Panic, exhausted_msg())),
{
    proof { reveal_strlit("panic in FFI layer: handle space exhausted"); }
    fail(err, NominalErrorCode::Panic, String::from_str("panic in FFI layer: handle space exhausted"))
}

/// Finishes a call that yields one object: registers it under a fresh
/// handle, or records the SDK's error.
pub fn register<T>(reg: &mut Registry<T>, err: &mut LastError, result: Result<T, SdkFailure>) -> (r: Result<i32, i32>)
    ensures
        match result {
            Ok(v) => if old(reg).next_handle() < i32::MAX {
                &&& r == Ok::<i32, i32>(old(reg).next_handle() as i32)
                &&& final(reg)@ == old(reg)@.insert(old(reg).next_handle() as i32, v)
                &&& final(reg).next_handle() == old(reg).next_handle() + 1
                &&& final(err)@ == old(err)@
            } else {
                &&& r matches Err(c) && failed_with(c, final(err)@, (NominalErrorCode::Panic, exhausted_msg()))
                &&& final(reg)@ == old(reg)@
                &&& final(reg).next_handle() == old(reg).next_handle()
            },
            Err(f) => {
                &&& r == Err::<i32, i32>(code_value(classify_spec(f.kind)))
                &&& final(err)@ == f.message@
                &&& final(reg)@ == old(reg)@
                &&& final(reg).next_handle() == old(reg).next_handle()
            },
        },
{
    match result {
        Ok(v) => match reg.insert(v) {
            Some(h) => Ok(h),
            None => Err(fail_exhausted(err)),
        },
        Err(f) => Err(fail_sdk(err, f)),
    }
}

/// Finishes a call that yields nothing: `0`, or the SDK's error code.
pub fn finish_unit(err: &mut LastError, result: Result<(), SdkFailure>) -> (r: i32)
    ensures
        match result {
            Ok(_) => r == 0 && final(err)@ == old(err)@,
            Err(f) => r == code_value(classify_spec(f.kind)) && final(err)@ == f.message@,
        },
{
    match result {
        Ok(_) => 0,
        Err(f) => fail_sdk(err, f),
    }
}

/// The handles a list call issues for `n` objects: consecutive, starting at
/// the registry's next handle.
pub open spec fn issued_run(start: int, n: nat) -> Seq<i32> {
    Seq::new(n, |i: int| (start + i) as i32)
}

/// The registry after `items` are stored under consecutive handles from
/// `start`.
pub open spec fn stored_run<T>(m: Map<i32, T>, start: int, items: Seq<T>) -> Map<i32, T> {
    Map::new(
        |h: i32| m.contains_key(h) || (start <= h < start + items.len()),
        |h: i32| if start <= h < start + items.len() { items[h - start] } else { m[h] },
    )
}

/// Finishes a list or search call: registers every object under its own
/// handle and the handles, in order, under a new list handle. Returns the
/// list handle and the count. Nothing is registered when either registry
/// cannot issue enough handles.
pub fn register_all<T>(
    reg: &mut Registry<T>,
    lists: &mut Registry<Vec<i32>>,
    err: &mut LastError,
    result: Result<Vec<T>, SdkFailure>,
) -> (r: Result<(i32, u32), i32>)
    ensures
        match result {
            Ok(items) => if old(reg).next_handle() + items.len() < i32::MAX && old(lists).next_handle() < i32::MAX {
                let start = old(reg).next_handle();
                &&& r == Ok::<(i32, u32), i32>((old(lists).next_handle() as i32, items.len() as u32))
                &&& final(reg)@ == stored_run(old(reg)@, start, items@)
                &&& final(reg).next_handle() == start + items.len()
                &&& final(lists)@.dom() == old(lists)@.dom().insert(old(lists).next_handle() as i32)
                &&& final(lists)@[old(lists).next_handle() as i32]@ == issued_run(start, items@.len())
                &&& forall|l: i32| #[trigger] old(lists)@.contains_key(l) ==> final(lists)@[l] == old(lists)@[l]
                &&& final(lists).next_handle() == old(lists).next_handle() + 1
                &&& final(err)@ == old(err)@
            } else {
                &&& r matches Err(c) && failed_with(c, final(err)@, (NominalErrorCode::Panic, exhausted_msg()))
                &&& final(reg)@ == old(reg)@
                &&& final(lists)@ == old(lists)@
            },
            Err(f) => {
                &&& r == Err::<(i32, u32), i32>(code_value(classify_spec(f.kind)))
                &&& final(err)@ == f.message@
                &&& final(reg)@ == old(reg)@
                &&& final(lists)@ == old(lists)@
            },
        },
{
    let items = match result {
        Ok(items) => items,
        Err(f) => {
            return Err(fail_sdk(err, f));
        },
    };
    let start = reg.peek_next();
    let n = items.len();
    if n >= i32::MAX as usize || start >= i32::MAX - (n as i32) || lists.peek_next() == i32::MAX {
        return Err(fail_exhausted(err));
    }
    let ghost old_reg = reg@;
    let ghost all = items@;
    let mut handles: Vec<i32> = Vec::new();
    // reverse the items, so that popping yields them front to back
    let mut src = items;
    let mut rest: Vec<T> = Vec::new();
    while src.len() > 0
        invariant
            n == all.len(),
            src@.len() + rest@.len() == n,
            src@ == all.take(src@.len() as int),
            forall|j: int| 0 <= j < rest@.len() ==> #[trigger] rest@[j] == all[n - 1 - j],
        decreases src@.len(),
    {
        let ghost before = src@;
        let x = src.pop().unwrap();
        proof {
            assert(before[before.len() - 1] == all[before.len() - 1]);
            assert(src@ =~= all.take(src@.len() as int));
        }
        rest.push(x);
    }
    let mut i: usize = 0;
    while i < n
        invariant
            n == all.len(),
            start + n < i32::MAX,
            i <= n,
            rest@.len() == n - i,
            forall|j: int| 0 <= j < n - i ==> #[trigger] rest@[j] == all[n - 1 - j],
            reg.next_handle() == start + i,
            reg@ == stored_run(old_reg, start as int, all.take(i as int)),
            handles@ == issued_run(start as int, i as nat),
            err@ == old(err)@,
            forall|h: i32| #[trigger] old_reg.contains_key(h) ==> 1 <= h < start,
        decreases n - i,
    {
        let item = rest.pop().unwrap();
        let h = match reg.insert(item) {
            Some(h) => h,
            None => {
                return Err(fail_exhausted(err));
            },
        };
        handles.push(h);
        proof {
            assert(stored_run(old_reg, start as int, all.take(i as int + 1)) =~= stored_run(old_reg, start as int, all.take(i as int)).insert(h, all[i as int]));
            assert(handles@ =~= issued_run(start as int, (i + 1) as nat));
        }
        i = i + 1;
    }
    proof {
        assert(all.take(n as int) =~= all);
    }
    let count = n as u32;
    match lists.insert(handles) {
        Some(list) => Ok((list, count)),
        None => Err(fail_exhausted(err)),
    }
}

/// Stores the number of handles in a handle list.
pub fn nominal_handle_list_count(lists: &Registry<Vec<i32>>, err: &mut LastError, list: i32, out_present: bool) -> (r: Result<u32, i32>)
    ensures
        match lookup_step(lists@, list, "handle list"@) {
            Ok(v) => if out_present {
                r == Ok::<u32, i32>(v@.len() as u32) && final(err)@ == old(err)@
            } else {
                r matches Err(c) && failed_with(c, final(err)@, (NominalErrorCode::NullArgument, "out_count must not be null"@))
            },
            Err(f) => r matches Err(c) && failed_with(c, final(err)@, f),
        },
{
    let handles = match lookup(lists, err, list, "handle list") {
        Ok(v) => v,
        Err(code) => {
            return Err(code);
        },
    };
    if !out_present {
        proof { reveal_strlit("out_count must not be null"); }
        return Err(fail(err, NominalErrorCode::NullArgument, String::from_str("out_count must not be null")));
    }
    Ok(handles.len() as u32)
}

/// The message for an index outside a collection of `len` items.
pub open spec fn index_msg(index: i32, len: nat) -> Seq<char> {
    "index "@ + signed_decimal(index as int) + " out of range for collection of "@ + crate::text::decimal(len)
}

/// Records the out-of-range message for `index` and returns its code.
pub fn index_error(err: &mut LastError, index: i32, len: usize) -> (r: i32)
    ensures
        failed_with(r, final(err)@, (NominalErrorCode::IndexOutOfRange, index_msg(index, len as nat))),
{
    let mut m = String::from_str("index ");
    append_signed(&mut m, index);
    m.append(" out of range for collection of ");
    crate::text::append_decimal(&mut m, len as u64);
    proof {
        assert(m@ =~= index_msg(index, len as nat));
    }
    fail(err, NominalErrorCode::IndexOutOfRange, m)
}

/// Reads the handle at `index` (0-based) of a handle list.
pub fn nominal_handle_list_get(
    lists: &Registry<Vec<i32>>,
    err: &mut LastError,
    list: i32,
    index: i32,
    out_present: bool,
) -> (r: Result<i32, i32>)
    ensures
        match lookup_step(lists@, list, "handle list"@) {
            Ok(v) => if !out_present {
                r matches Err(c) && failed_with(c, final(err)@, (NominalErrorCode::NullArgument, "out_handle must not be null"@))
            } else if 0 <= index < v@.len() {
                r == Ok::<i32, i32>(v@[index as int]) && final(err)@ == old(err)@
            } else {
                r matches Err(c) && failed_with(c, final(err)@, (NominalErrorCode::IndexOutOfRange, index_msg(index, v@.len())))
            },
            Err(f) => r matches Err(c) && failed_with(c, final(err)@, f),
        },
{
    let handles = match lookup(lists, err, list, "handle list") {
        Ok(v) => v,
        Err(code) => {
            return Err(code);
        },
    };
    if !out_present {
        proof { reveal_strlit("out_handle must not be null"); }
        return Err(fail(err, NominalErrorCode::NullArgument, String::from_str("out_handle must not be null")));
    }
    if index < 0 || index as usize >= handles.len() {
        return Err(index_error(err, index, handles.len()));
    }
    Ok(handles[index as usize])
}

/// Frees a handle list. The handles it lists stay valid.
pub fn nominal_handle_list_free(lists: &mut Registry<Vec<i32>>, err: &mut LastError, list: i32) -> (r: i32)
    ensures
        final(lists)@ == old(lists)@.remove(list),
        final(lists).next_handle() == old(lists).next_handle(),
        old(lists)@.contains_key(list) ==> r == 0 && final(err)@ == old(err)@,
        !old(lists)@.contains_key(list) ==> failed_with(
            r,
            final(err)@,
            (NominalErrorCode::InvalidHandle, invalid_handle_msg("handle list"@, list)),
        ),
{
    free_handle(lists, err, list, "handle list")
}

/// The registry after the object under `h` was replaced by one whose view
/// is `v`; every other handle keeps its object.
pub open spec fn updated_at<P: View>(old_m: Map<i32, P>, new_m: Map<i32, P>, h: i32, v: P::V) -> bool {
    &&& new_m.dom() == old_m.dom()
    &&& new_m[h]@ == v
    &&& forall|k: i32| k != h && #[trigger] old_m.contains_key(k) ==> new_m[k] == old_m[k]
}

/// The registry after an object whose view is `v` was stored under the
/// fresh handle `h`.
pub open spec fn added_at<P: View>(old_m: Map<i32, P>, new_m: Map<i32, P>, h: i32, v: P::V) -> bool {
    &&& !old_m.contains_key(h)
    &&& new_m.dom() == old_m.dom().insert(h)
    &&& new_m[h]@ == v
    &&& forall|k: i32| #[trigger] old_m.contains_key(k) ==> new_m[k] == old_m[k]
}

/// What a call that edits the object under `h` does: `update` gives the
/// object's new view from its old one, or the failure that leaves it as it
/// was.
pub open spec fn edit_post<P: View>(
    old_m: Map<i32, P>,
    new_m: Map<i32, P>,
    h: i32,
    kind: Seq<char>,
    update: spec_fn(P::V) -> Result<P::V, (NominalErrorCode, Seq<char>)>,
    r: i32,
    old_err: Seq<char>,
    new_err: Seq<char>,
) -> bool {
    match lookup_step(old_m, h, kind) {
        Err(f) => failed_with(r, new_err, f) && new_m == old_m,
        Ok(p) => match update(p@) {
            Ok(v) => r == 0 && new_err == old_err && updated_at(old_m, new_m, h, v),
            Err(f) => failed_with(r, new_err, f) && new_m == old_m,
        },
    }
}

/// What a call that starts a new object does: `start` gives its view, or
/// the failure. The object is stored under the registry's next handle
/// `next`, which then moves on by one (`new_next`); a failed start leaves
/// the registry and its next handle as they were.
pub open spec fn begin_post<P: View>(
    old_m: Map<i32, P>,
    new_m: Map<i32, P>,
    next: int,
    new_next: int,
    start: Result<P::V, (NominalErrorCode, Seq<char>)>,
    r: Result<i32, i32>,
    old_err: Seq<char>,
    new_err: Seq<char>,
) -> bool {
    match start {
        Ok(v) => if next < i32::MAX {
            &&& r == Ok::<i32, i32>(next as i32)
            &&& new_err == old_err
            &&& added_at(old_m, new_m, next as i32, v)
            &&& new_next == next + 1
        } else {
            &&& r matches Err(c) && failed_with(c, new_err, (NominalErrorCode::Panic, exhausted_msg()))
            &&& new_m == old_m
            &&& new_next == next
        },
        Err(f) => {
            &&& r matches Err(c) && failed_with(c, new_err, f)
            &&& new_m == old_m
            &&& new_next == next
        },
    }
}

/// Takes the object under `h` out of its registry to edit it; a handle
/// that is not live records the invalid-handle message.
pub fn take_staged<P>(reg: &mut Registry<P>, err: &mut LastError, h: i32, kind: &str) -> (r: Result<P, i32>)
    ensures
        match r {
            Ok(p) => {
                &&& old(reg)@.contains_key(h)
                &&& p == old(reg)@[h]
                &&& final(reg)@ == old(reg)@.remove(h)
                &&& 1 <= h < final(reg).next_handle()
                &&& final(err)@ == old(err)@
            },
            Err(c) => {
                &&& !old(reg)@.contains_key(h)
                &&& failed_with(c, final(err)@, (NominalErrorCode::InvalidHandle, invalid_handle_msg(kind@, h)))
                &&& final(reg)@ == old(reg)@
            },
        },
        final(reg).next_handle() == old(reg).next_handle(),
{
    match reg.remove(h) {
        Some(p) => Ok(p),
        None => {
            proof {
                assert(reg@ =~= old(reg)@);
            }
            Err(invalid_handle(err, h, kind))
        },
    }
}

/// Stores a freshly started object under the next handle.
pub fn begin_staged<P: View>(reg: &mut Registry<P>, err: &mut LastError, value: P) -> (r: Result<i32, i32>)
    ensures
        begin_post(old(reg)@, final(reg)@, old(reg).next_handle(), final(reg).next_handle(), Ok::<P::V, (NominalErrorCode, Seq<char>)>(value@), r, old(err)@, final(err)@),
{
    match reg.insert(value) {
        Some(h) => Ok(h),
        None => Err(fail_exhausted(err)),
    }
}

/// What a call that either yields a value or fails does: on success the
/// value's view is `v` and the last-error message is untouched; on failure
/// the code and message are those of the failure.
pub open spec fn outcome<B: View>(
    step: Result<B::V, (NominalErrorCode, Seq<char>)>,
    r: Result<B, i32>,
    old_err: Seq<char>,
    new_err: Seq<char>,
) -> bool {
    match step {
        Ok(v) => (r matches Ok(x) && x@ == v) && new_err == old_err,
        Err(f) => r matches Err(c) && failed_with(c, new_err, f),
    }
}

} // verus!
