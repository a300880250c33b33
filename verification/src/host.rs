//! An explicit model of the managed host runtime.
//!
//! The bridge consumes the host through a small, fixed call interface: invoke
//! a named method on an object, check/read/clear the pending exception, test
//! an instance-of relationship, read a string's or a byte array's contents,
//! look a class up by name and construct an instance. [`HostEnv`] represents
//! that interface as data: a table of host objects, each carrying its class
//! name, optional text or byte contents, and a scripted outcome for every
//! method the bridge may invoke on it, plus the thread-local
//! pending-exception flag. Every primitive below is an ordinary verified
//! function with an exact contract over this model, so the invocation
//! protocol and the marshalling bridges built on top of them are verified
//! for every host behaviour the model can express.

use vstd::prelude::*;

use crate::error::{HostFault, ValueShape};

verus! {

/// The index a host object is addressed by inside the model.
pub type ObjId = usize;

/// A typed value crossing the call interface. Host strings and byte arrays
/// are objects like any other: their contents sit on the [`HostObject`] and
/// are read through [`HostEnv::get_string`] and
/// [`HostEnv::convert_byte_array`].
#[derive(Clone, Copy, PartialEq, Eq, Structural, Debug)]
pub enum HostValue {
    /// The null reference.
    Null,
    /// A reference to a host object.
    Object(ObjId),
    /// A 32-bit signed integer.
    Int(i32),
    /// A 64-bit signed integer.
    Long(i64),
    /// A boolean.
    Boolean(bool),
    /// No value (a `void` return).
    Void,
}

/// What one invocation of a host method does: return a value, or raise the
/// given exception object.
#[derive(Clone, Copy, PartialEq, Eq, Structural, Debug)]
pub enum CallOutcome {
    Return(HostValue),
    Throw(ObjId),
}

/// The scripted outcome of one named method of a host object.
pub struct MethodBehavior {
    /// The method's name.
    pub name: String,
    /// What a call of it does.
    pub outcome: CallOutcome,
}

/// One object held by the host runtime.
pub struct HostObject {
    /// The name of the object's runtime class.
    pub class_name: String,
    /// The contents, if this object is a host string.
    pub text: Option<String>,
    /// The contents, if this object is a host byte array.
    pub bytes: Option<Vec<u8>>,
    /// The outcome of each method the bridge may invoke on this object.
    pub methods: Vec<MethodBehavior>,
}

/// The host runtime as seen through its call interface: its objects, its
/// loadable classes, and the call stack's pending-exception flag.
pub struct HostEnv {
    /// The host's objects; a [`HostValue::Object`] indexes into this table.
    pub objects: Vec<HostObject>,
    /// The names of the classes a lookup by name can find.
    pub classes: Vec<String>,
    /// The pending exception, if one was raised and not yet cleared.
    pub pending: Option<ObjId>,
}

/// The outcome scripted for method `m` in `ms`: the first behaviour whose
/// name is `m`, if any.
pub open spec fn lookup_outcome(ms: Seq<MethodBehavior>, m: Seq<char>) -> Option<CallOutcome>
    decreases ms.len(),
{
    if ms.len() == 0 {
        None
    } else if ms[0].name@ == m {
        Some(ms[0].outcome)
    } else {
        lookup_outcome(ms.skip(1), m)
    }
}

/// A scripted outcome always comes from some behaviour in the table.
pub proof fn lemma_lookup_found(ms: Seq<MethodBehavior>, m: Seq<char>)
    requires
        lookup_outcome(ms, m) is Some,
    ensures
        exists|j: int| 0 <= j < ms.len() && #[trigger] ms[j].outcome == lookup_outcome(ms, m)->0,
    decreases ms.len(),
{
    if ms.len() == 0 {
    } else if ms[0].name@ == m {
        assert(ms[0].outcome == lookup_outcome(ms, m)->0);
    } else {
        lemma_lookup_found(ms.skip(1), m);
        let j = choose|j: int|
            0 <= j < ms.skip(1).len() && #[trigger] ms.skip(1)[j].outcome == lookup_outcome(
                ms.skip(1),
                m,
            )->0;
        assert(ms[j + 1].outcome == lookup_outcome(ms, m)->0);
    }
}

/// Whether some class of name `name` can be found.
pub open spec fn has_class(cs: Seq<String>, name: Seq<char>) -> bool {
    exists|j: int| 0 <= j < cs.len() && #[trigger] cs[j]@ == name
}

impl HostEnv {
    /// Whether `o` indexes an object of this host.
    pub open spec fn valid_obj(self, o: int) -> bool {
        0 <= o < self.objects@.len()
    }

    /// The outcome the host scripts for invoking method `m` on object `o`.
    pub open spec fn outcome_of(self, o: int, m: Seq<char>) -> Option<CallOutcome>
        recommends
            self.valid_obj(o),
    {
        lookup_outcome(self.objects@[o].methods@, m)
    }

    /// Whether an outcome only references objects this host holds.
    pub open spec fn outcome_ok(self, c: CallOutcome) -> bool {
        match c {
            CallOutcome::Return(HostValue::Object(id)) => self.valid_obj(id as int),
            CallOutcome::Return(_) => true,
            CallOutcome::Throw(e) => self.valid_obj(e as int),
        }
    }

    /// Well-formedness: every scripted outcome and the pending exception
    /// reference objects the host actually holds.
    pub open spec fn wf(self) -> bool {
        &&& forall|o: int, j: int|
            0 <= o < self.objects@.len() && 0 <= j < self.objects@[o].methods@.len()
                ==> self.outcome_ok(#[trigger] self.objects@[o].methods@[j].outcome)
        &&& (self.pending matches Some(e) ==> self.valid_obj(e as int))
    }

    /// A host with no objects, no classes and no pending exception.
    pub fn new() -> (r: Self)
        ensures
            r.objects@ == Seq::<HostObject>::empty(),
            r.classes@ == Seq::<String>::empty(),
            r.pending is None,
            r.wf(),
    {
        HostEnv { objects: Vec::new(), classes: Vec::new(), pending: None }
    }

    /// A scripted outcome of a well-formed host references only objects it
    /// holds.
    pub proof fn lemma_outcome_valid(self, o: int, m: Seq<char>, c: CallOutcome)
        requires
            self.wf(),
            self.valid_obj(o),
            self.outcome_of(o, m) == Some(c),
        ensures
            self.outcome_ok(c),
    {
        lemma_lookup_found(self.objects@[o].methods@, m);
        let j = choose|j: int|
            0 <= j < self.objects@[o].methods@.len()
                && #[trigger] self.objects@[o].methods@[j].outcome == lookup_outcome(
                self.objects@[o].methods@,
                m,
            )->0;
        assert(self.outcome_ok(self.objects@[o].methods@[j].outcome));
    }

    /// Invokes the named method on a host object with the given arguments,
    /// following the scripted outcome: a return hands the value back; a
    /// raised exception becomes pending and the call reports that it threw;
    /// a method the object does not expose is reported missing. The script
    /// resolves an invocation by method name alone, so the outcome holds
    /// whatever the arguments were. The host refuses any call while an
    /// exception is pending, so a caller must have drained the flag first.
    pub fn call_method(&mut self, obj: ObjId, method: &str, args: &Vec<HostValue>) -> (r: Result<
        HostValue,
        HostFault,
    >)
        requires
            old(self).valid_obj(obj as int),
            old(self).pending is None,
        ensures
            final(self).objects == old(self).objects,
            final(self).classes == old(self).classes,
            match old(self).outcome_of(obj as int, method@) {
                None => r == Err::<HostValue, HostFault>(HostFault::MissingMethod)
                    && final(self).pending is None,
                Some(CallOutcome::Return(v)) => r == Ok::<HostValue, HostFault>(v)
                    && final(self).pending is None,
                Some(CallOutcome::Throw(e)) => r == Err::<HostValue, HostFault>(HostFault::Threw)
                    && final(self).pending == Some(e),
            },
    {
        let outcome = find_outcome(&self.objects[obj].methods, method);
        match outcome {
            None => Err(HostFault::MissingMethod),
            Some(CallOutcome::Return(v)) => Ok(v),
            Some(CallOutcome::Throw(e)) => {
                self.pending = Some(e);
                Err(HostFault::Threw)
            },
        }
    }

    /// Whether an exception is pending on the host call stack.
    pub fn exception_check(&self) -> (r: bool)
        ensures
            r == (self.pending is Some),
    {
        self.pending.is_some()
    }

    /// The pending exception object, without clearing it.
    pub fn exception_occurred(&self) -> (r: ObjId)
        requires
            self.pending is Some,
        ensures
            r == self.pending->0,
    {
        self.pending.unwrap()
    }

    /// Clears the pending-exception flag.
    pub fn exception_clear(&mut self)
        ensures
            final(self).objects == old(self).objects,
            final(self).classes == old(self).classes,
            final(self).pending is None,
    {
        self.pending = None;
    }

    /// Whether the object is an instance of the named class.
    pub fn is_instance_of(&self, obj: ObjId, class: &str) -> (r: bool)
        requires
            self.valid_obj(obj as int),
        ensures
            r == (self.objects@[obj as int].class_name@ == class@),
    {
        str_eq(self.objects[obj].class_name.as_str(), class)
    }

    /// Reads a host string's contents.
    pub fn get_string(&self, obj: ObjId) -> (r: Result<String, HostFault>)
        requires
            self.valid_obj(obj as int),
        ensures
            match self.objects@[obj as int].text {
                Some(s) => r == Ok::<String, HostFault>(s),
                None => r == Err::<String, HostFault>(HostFault::NotText),
            },
    {
        match &self.objects[obj].text {
            Some(s) => Ok(s.clone()),
            None => Err(HostFault::NotText),
        }
    }

    /// Reads a host byte array's contents.
    pub fn convert_byte_array(&self, obj: ObjId) -> (r: Result<Vec<u8>, HostFault>)
        requires
            self.valid_obj(obj as int),
        ensures
            self.objects@[obj as int].bytes matches Some(bs) ==> (r matches Ok(b) && b@ == bs@),
            self.objects@[obj as int].bytes is None ==> r == Err::<Vec<u8>, HostFault>(
                HostFault::NotBytes,
            ),
    {
        match &self.objects[obj].bytes {
            Some(bs) => Ok(copy_bytes(bs)),
            None => Err(HostFault::NotBytes),
        }
    }

    /// Looks a class up by its fully-qualified name.
    pub fn find_class(&self, name: &str) -> (r: Result<usize, HostFault>)
        ensures
            has_class(self.classes@, name@) ==> (r matches Ok(c) && c < self.classes@.len()
                && self.classes@[c as int]@ == name@),
            !has_class(self.classes@, name@) ==> r == Err::<usize, HostFault>(
                HostFault::UnknownClass,
            ),
    {
        let n = self.classes.len();
        let mut i: usize = 0;
        while i < n
            invariant
                n == self.classes@.len(),
                0 <= i <= n,
                forall|j: int| 0 <= j < i ==> #[trigger] self.classes@[j]@ != name@,
            decreases n - i,
        {
            if str_eq(self.classes[i].as_str(), name) {
                return Ok(i);
            }
            i = i + 1;
        }
        Err(HostFault::UnknownClass)
    }

    /// Constructs a host instance of the given class from a byte buffer, by
    /// the class's byte-buffer constructor. The new wrapper keeps the bytes
    /// it was built from and serializes back to itself.
    pub fn new_serialized_object(&mut self, class: usize, data: &Vec<u8>) -> (r: ObjId)
        requires
            class < old(self).classes@.len(),
        ensures
            final(self).classes == old(self).classes,
            final(self).pending == old(self).pending,
            r == old(self).objects@.len(),
            final(self).objects@.len() == old(self).objects@.len() + 1,
            forall|i: int|
                0 <= i < old(self).objects@.len()
                    ==> final(self).objects@[i] == old(self).objects@[i],
            final(self).objects@[r as int].class_name@ == old(self).classes@[class as int]@,
            final(self).objects@[r as int].text is None,
            (final(self).objects@[r as int].bytes matches Some(b) && b@ == data@),
            final(self).objects@[r as int].methods@.len() == 1,
            final(self).objects@[r as int].methods@[0].name@ == "serialize"@,
            final(self).objects@[r as int].methods@[0].outcome == CallOutcome::Return(
                HostValue::Object(r),
            ),
            old(self).wf() ==> final(self).wf(),
    {
        let id = self.objects.len();
        let class_name = self.classes[class].clone();
        let mut methods: Vec<MethodBehavior> = Vec::new();
        methods.push(
            MethodBehavior {
                name: "serialize".to_owned(),
                outcome: CallOutcome::Return(HostValue::Object(id)),
            },
        );
        let obj = HostObject { class_name, text: None, bytes: Some(copy_bytes(data)), methods };
        self.objects.push(obj);
        proof {
            self.lemma_wf_after_push(*old(self));
        }
        id
    }

    /// Constructs a host instance of the given class around an already-boxed
    /// native handle, by the class's handle-accepting constructor. The new
    /// wrapper exposes the handle through its native-handle accessor.
    pub fn new_handle_object(&mut self, class: usize, boxed_handle: i64) -> (r: ObjId)
        requires
            class < old(self).classes@.len(),
        ensures
            final(self).classes == old(self).classes,
            final(self).pending == old(self).pending,
            r == old(self).objects@.len(),
            final(self).objects@.len() == old(self).objects@.len() + 1,
            forall|i: int|
                0 <= i < old(self).objects@.len()
                    ==> final(self).objects@[i] == old(self).objects@[i],
            final(self).objects@[r as int].class_name@ == old(self).classes@[class as int]@,
            final(self).objects@[r as int].text is None,
            final(self).objects@[r as int].bytes is None,
            final(self).objects@[r as int].methods@.len() == 1,
            final(self).objects@[r as int].methods@[0].name@ == "nativeHandle"@,
            final(self).objects@[r as int].methods@[0].outcome == CallOutcome::Return(
                HostValue::Long(boxed_handle),
            ),
            old(self).wf() ==> final(self).wf(),
    {
        let id = self.objects.len();
        let class_name = self.classes[class].clone();
        let mut methods: Vec<MethodBehavior> = Vec::new();
        methods.push(
            MethodBehavior {
                name: "nativeHandle".to_owned(),
                outcome: CallOutcome::Return(HostValue::Long(boxed_handle)),
            },
        );
        let obj = HostObject { class_name, text: None, bytes: None, methods };
        self.objects.push(obj);
        proof {
            self.lemma_wf_after_push(*old(self));
        }
        id
    }

    /// Adding an object whose scripted outcomes only reference objects of
    /// the grown table keeps the host well-formed.
    proof fn lemma_wf_after_push(self, before: HostEnv)
        requires
            self.objects@.len() == before.objects@.len() + 1,
            forall|i: int| 0 <= i < before.objects@.len() ==> self.objects@[i] == before.objects@[i],
            self.pending == before.pending,
            forall|j: int|
                0 <= j < self.objects@[before.objects@.len() as int].methods@.len()
                    ==> self.outcome_ok(
                    #[trigger] self.objects@[before.objects@.len() as int].methods@[j].outcome,
                ),
        ensures
            before.wf() ==> self.wf(),
    {
        if before.wf() {
            assert forall|o: int, j: int|
                0 <= o < self.objects@.len() && 0 <= j < self.objects@[o].methods@.len() implies self.outcome_ok(
                #[trigger] self.objects@[o].methods@[j].outcome,
            ) by {
                if o < before.objects@.len() {
                    assert(self.objects@[o] == before.objects@[o]);
                    assert(before.outcome_ok(before.objects@[o].methods@[j].outcome));
                }
            }
        }
    }
}

/// The shape of a host value, as reported in a shape-mismatch error.
pub open spec fn shape_spec(v: HostValue) -> ValueShape {
    match v {
        HostValue::Null => ValueShape::Null,
        HostValue::Object(_) => ValueShape::Object,
        HostValue::Int(_) => ValueShape::Int,
        HostValue::Long(_) => ValueShape::Long,
        HostValue::Boolean(_) => ValueShape::Boolean,
        HostValue::Void => ValueShape::Void,
    }
}

/// Reports the shape of a host value.
pub fn value_shape(v: HostValue) -> (r: ValueShape)
    ensures
        r == shape_spec(v),
{
    match v {
        HostValue::Null => ValueShape::Null,
        HostValue::Object(_) => ValueShape::Object,
        HostValue::Int(_) => ValueShape::Int,
        HostValue::Long(_) => ValueShape::Long,
        HostValue::Boolean(_) => ValueShape::Boolean,
        HostValue::Void => ValueShape::Void,
    }
}

/// Compares two strings by contents.
fn str_eq(a: &str, b: &str) -> (r: bool)
    ensures
        r == (a@ == b@),
{
    let sa: String = a.to_owned();
    let sb: String = b.to_owned();
    sa == sb
}

/// Copies a byte buffer.
fn copy_bytes(src: &Vec<u8>) -> (r: Vec<u8>)
    ensures
        r@ == src@,
{
    let n = src.len();
    let mut out: Vec<u8> = Vec::new();
    let mut i: usize = 0;
    while i < n
        invariant
            n == src@.len(),
            0 <= i <= n,
            out@ == src@.subrange(0, i as int),
        decreases n - i,
    {
        out.push(src[i]);
        proof {
            assert(out@ =~= src@.subrange(0, i as int + 1));
        }
        i = i + 1;
    }
    proof {
        assert(src@.subrange(0, n as int) =~= src@);
    }
    out
}

/// Finds the scripted outcome of the named method, if the object exposes it.
fn find_outcome(methods: &Vec<MethodBehavior>, name: &str) -> (r: Option<CallOutcome>)
    ensures
        r == lookup_outcome(methods@, name@),
{
    let n = methods.len();
    let mut i: usize = 0;
    proof {
        assert(methods@.skip(0) =~= methods@);
    }
    while i < n
        invariant
            n == methods@.len(),
            0 <= i <= n,
            lookup_outcome(methods@, name@) == lookup_outcome(methods@.skip(i as int), name@),
        decreases n - i,
    {
        proof {
            assert(methods@.skip(i as int)[0] == methods@[i as int]);
        }
        if str_eq(methods[i].name.as_str(), name) {
            return Some(methods[i].outcome);
        }
        proof {
            assert(methods@.skip(i as int).skip(1) =~= methods@.skip(i as int + 1));
        }
        i = i + 1;
    }
    proof {
        assert(methods@.skip(n as int) =~= Seq::<MethodBehavior>::empty());
    }
    None
}

} // verus!
