//! The computed side of D-Bus introspection.
//!
//! Talking to the bus — listing names, fetching introspection XML,
//! invoking methods — is outside work and lives in the binary around
//! this library.  What the library owns is the arithmetic on the data
//! that comes back: introspected interfaces, methods and arguments as
//! plain values, the object-path joining of the recursive node walk,
//! and the input-signature a method's arguments spell.

use vstd::prelude::*;
use vstd::string::StrSliceExecFns;
use vstd::string::StringExecFns;

use crate::tokenizer::str_eq;

verus! {

/// One argument of an introspected method: its D-Bus type signature
/// and, when declared, its direction (`"in"` or `"out"`).
pub struct MethodArg {
    pub ty: String,
    pub direction: Option<String>,
}

/// One method of an introspected interface.
pub struct Method {
    pub name: String,
    pub args: Vec<MethodArg>,
}

/// One interface of an introspected node.
pub struct Interface {
    pub name: String,
    pub methods: Vec<Method>,
}

/// The first interface with the given name, if any.
pub open spec fn spec_find_interface(ifs: Seq<Interface>, name: Seq<char>) -> Option<Interface>
    decreases ifs.len(),
{
    if ifs.len() == 0 {
        None
    } else if ifs[0].name@ == name {
        Some(ifs[0])
    } else {
        spec_find_interface(ifs.skip(1), name)
    }
}

/// The first method with the given name, if any.
pub open spec fn spec_find_method(ms: Seq<Method>, name: Seq<char>) -> Option<Method>
    decreases ms.len(),
{
    if ms.len() == 0 {
        None
    } else if ms[0].name@ == name {
        Some(ms[0])
    } else {
        spec_find_method(ms.skip(1), name)
    }
}

/// The input signature a method's arguments spell: the type strings of
/// the arguments whose direction is `"in"`, concatenated in order.
pub open spec fn spec_in_signature(args: Seq<MethodArg>) -> Seq<char>
    decreases args.len(),
{
    if args.len() == 0 {
        Seq::empty()
    } else {
        (if args[0].direction matches Some(d) && d@ == "in"@ {
            args[0].ty@
        } else {
            Seq::empty()
        }) + spec_in_signature(args.skip(1))
    }
}

/// The names of the introspected interfaces, in order.
pub fn interface_names(interfaces: &Vec<Interface>) -> (r: Vec<String>)
    ensures
        r@.len() == interfaces@.len(),
        forall|i: int| 0 <= i < r@.len() ==> r@[i] == (#[trigger] interfaces@[i]).name,
{
    let mut r: Vec<String> = Vec::new();
    let mut i: usize = 0;
    while i < interfaces.len()
        invariant
            0 <= i <= interfaces@.len(),
            r@.len() == i,
            forall|j: int| 0 <= j < i ==> r@[j] == (#[trigger] interfaces@[j]).name,
        decreases interfaces@.len() - i,
    {
        r.push(interfaces[i].name.clone());
        i += 1;
    }
    r
}

/// The input signature of `method` on `interface` among the
/// introspected interfaces: `None` when the interface or the method is
/// missing, otherwise exactly the concatenation of the `"in"`
/// arguments' type strings.
pub fn signature_of(interfaces: &Vec<Interface>, interface: &str, method: &str) -> (r: Option<
    String,
>)
    ensures
        (match spec_find_interface(interfaces@, interface@) {
            None => r is None,
            Some(itf) => (match spec_find_method(itf.methods@, method@) {
                None => r is None,
                Some(m) => r matches Some(s) && s@ == spec_in_signature(m.args@),
            }),
        }),
{
    let mut i: usize = 0;
    proof {
        assert(interfaces@.skip(0) =~= interfaces@);
    }
    while i < interfaces.len()
        invariant
            0 <= i <= interfaces@.len(),
            spec_find_interface(interfaces@, interface@) == spec_find_interface(
                interfaces@.skip(i as int),
                interface@,
            ),
        decreases interfaces@.len() - i,
    {
        proof {
            assert(interfaces@.skip(i as int)[0] == interfaces@[i as int]);
            assert(interfaces@.skip(i as int).skip(1) =~= interfaces@.skip(i + 1));
        }
        if str_eq(interfaces[i].name.as_str(), interface) {
            return signature_of_interface(&interfaces[i], method);
        }
        i += 1;
    }
    proof {
        assert(interfaces@.skip(interfaces@.len() as int).len() == 0);
    }
    None
}

/// The input signature of `method` on one interface, or `None` when
/// the interface has no method of that name.
fn signature_of_interface(itf: &Interface, method: &str) -> (r: Option<String>)
    ensures
        (match spec_find_method(itf.methods@, method@) {
            None => r is None,
            Some(m) => r matches Some(s) && s@ == spec_in_signature(m.args@),
        }),
{
    let mut i: usize = 0;
    proof {
        assert(itf.methods@.skip(0) =~= itf.methods@);
    }
    while i < itf.methods.len()
        invariant
            0 <= i <= itf.methods@.len(),
            spec_find_method(itf.methods@, method@) == spec_find_method(
                itf.methods@.skip(i as int),
                method@,
            ),
        decreases itf.methods@.len() - i,
    {
        proof {
            assert(itf.methods@.skip(i as int)[0] == itf.methods@[i as int]);
            assert(itf.methods@.skip(i as int).skip(1) =~= itf.methods@.skip(i + 1));
        }
        if str_eq(itf.methods[i].name.as_str(), method) {
            return Some(in_signature(&itf.methods[i].args));
        }
        i += 1;
    }
    proof {
        assert(itf.methods@.skip(itf.methods@.len() as int).len() == 0);
    }
    None
}

/// Concatenates the type strings of the arguments whose direction is
/// `"in"`, in order.
pub fn in_signature(args: &Vec<MethodArg>) -> (r: String)
    ensures
        r@ == spec_in_signature(args@),
{
    let mut out = String::new();
    let mut i: usize = 0;
    proof {
        assert(args@.skip(0) =~= args@);
        assert(out@ + spec_in_signature(args@) =~= spec_in_signature(args@));
    }
    while i < args.len()
        invariant
            0 <= i <= args@.len(),
            spec_in_signature(args@) == out@ + spec_in_signature(args@.skip(i as int)),
        decreases args@.len() - i,
    {
        proof {
            assert(args@.skip(i as int)[0] == args@[i as int]);
            assert(args@.skip(i as int).skip(1) =~= args@.skip(i + 1));
        }
        let ghost head: Seq<char> = (if args@[i as int].direction matches Some(d) && d@
            == "in"@ {
            args@[i as int].ty@
        } else {
            Seq::empty()
        });
        proof {
            assert(spec_in_signature(args@.skip(i as int)) == head + spec_in_signature(
                args@.skip(i + 1),
            ));
            assert((out@ + head) + spec_in_signature(args@.skip(i + 1)) =~= out@ + (head
                + spec_in_signature(args@.skip(i + 1))));
        }
        match &args[i].direction {
            Some(d) => {
                if str_eq(d.as_str(), "in") {
                    out.append(args[i].ty.as_str());
                } else {
                    proof {
                        assert(out@ + head =~= out@);
                    }
                }
            },
            None => {
                proof {
                    assert(out@ + head =~= out@);
                }
            },
        }
        i += 1;
    }
    proof {
        assert(spec_in_signature(args@.skip(args@.len() as int)) =~= Seq::<char>::empty());
        assert(out@ + Seq::<char>::empty() =~= out@);
    }
    out
}

/// Appends a child node's name to an object path, inserting the `/`
/// separator unless the path already ends with one: one step of the
/// recursive object-path walk.
pub fn join_path(path: &str, name: &str) -> (r: String)
    ensures
        r@ == (if path@.len() > 0 && path@[path@.len() - 1] == '/' {
            path@ + name@
        } else {
            path@ + seq!['/'] + name@
        }),
{
    let mut r = path.to_owned();
    let n = path.unicode_len();
    let ends_with_slash = if n == 0 {
        false
    } else {
        path.get_char(n - 1) == '/'
    };
    if !ends_with_slash {
        proof {
            reveal_strlit("/");
            assert("/"@ =~= seq!['/']);
        }
        r.append("/");
    }
    r.append(name);
    r
}

/// The full object paths of a node's children: each child name joined
/// to the parent path.  One level of the recursive path walk; the walk
/// itself needs a bus round trip per node and stays with the caller.
pub fn child_paths(path: &str, names: &Vec<String>) -> (r: Vec<String>)
    ensures
        r@.len() == names@.len(),
        forall|i: int|
            0 <= i < names@.len() ==> (#[trigger] r@[i])@ == (if path@.len() > 0
                && path@[path@.len() - 1] == '/' {
                path@ + (#[trigger] names@[i])@
            } else {
                path@ + seq!['/'] + names@[i]@
            }),
{
    let mut r: Vec<String> = Vec::new();
    let mut i: usize = 0;
    while i < names.len()
        invariant
            0 <= i <= names@.len(),
            r@.len() == i,
            forall|j: int|
                0 <= j < i ==> (#[trigger] r@[j])@ == (if path@.len() > 0 && path@[path@.len()
                    - 1] == '/' {
                    path@ + names@[j]@
                } else {
                    path@ + seq!['/'] + names@[j]@
                }),
        decreases names@.len() - i,
    {
        r.push(join_path(path, names[i].as_str()));
        i += 1;
    }
    r
}

} // verus!
