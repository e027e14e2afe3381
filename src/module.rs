use std::sync::Arc;
use vstd::prelude::*;
use vstd::string::StringSliceAdditionalSpecFns;
use vstd::utf8::encode_utf8;

use crate::byte_vector::{text_of, ByteVector};

verus! {

/// A compiled program module, as far as its name goes: absent, or a text.
pub struct Module {
    name: Option<String>,
}

impl View for Module {
    /// The module's name.
    type V = Option<Seq<char>>;

    closed spec fn view(&self) -> Option<Seq<char>> {
        match self.name {
            Some(s) => Some(s@),
            None => None,
        }
    }
}

impl Module {
    /// A module with the given name, or with none.
    pub fn new(name: Option<String>) -> (r: Module)
        ensures
            r@ == match name {
                Some(s) => Some(s@),
                None => None::<Seq<char>>,
            },
    {
        Module { name }
    }

    /// The module's name, if it has one.
    pub fn name(&self) -> (r: Option<&str>)
        ensures
            match self@ {
                Some(n) => r matches Some(s) && s@ == n,
                None => r is None,
            },
    {
        match &self.name {
            Some(s) => Some(s.as_str()),
            None => None,
        }
    }

    /// Replaces the module's name.
    pub fn set_name(&mut self, name: &str)
        ensures
            final(self)@ == Some(name@),
    {
        self.name = Some(name.to_owned());
    }
}

/// Relies on std's `Arc::get_mut`: a mutable borrow of the shared value,
/// handed out only where no other `Arc` or `Weak` points to it, and nothing
/// otherwise. Whether others do is not known here, so either outcome may come.
#[verifier::external_body]
fn arc_get_mut<T>(this: &mut Arc<T>) -> (r: Option<&mut T>)
    ensures
        match r {
            Some(m) => *m == **old(this) && **final(this) == *final(m),
            None => **final(this) == **old(this),
        },
{
    Arc::get_mut(this)
}

/// A reference to a module that other handles may share.
///
/// Cloning a handle shares the module; dropping one releases its share.
#[derive(Clone)]
pub struct ModuleHandle {
    inner: Arc<Module>,
}

impl View for ModuleHandle {
    /// The name of the module that the handle refers to.
    type V = Option<Seq<char>>;

    closed spec fn view(&self) -> Option<Seq<char>> {
        (*self.inner)@
    }
}

impl ModuleHandle {
    /// The first handle to a module, its sole owner.
    pub fn new(module: Module) -> (r: ModuleHandle)
        ensures
            r@ == module@,
    {
        ModuleHandle { inner: Arc::new(module) }
    }
}

/// What a read of the name hands out: the name's UTF-8 bytes, or `None`, the
/// buffer without data, where there is no name.
pub open spec fn name_bytes(name: Option<Seq<char>>) -> Option<Seq<u8>> {
    match name {
        Some(n) => Some(encode_utf8(n)),
        None => None,
    }
}

/// How a rename may end, given the name before, the candidate buffer, the
/// flag returned and the name after: on success the name is the candidate's
/// text, which must be well-formed UTF-8; on failure the name is unchanged.
pub open spec fn set_name_outcome(
    before: Option<Seq<char>>,
    candidate: Option<Seq<u8>>,
    renamed: bool,
    after: Option<Seq<char>>,
) -> bool {
    if renamed {
        text_of(candidate) is Some && after == text_of(candidate)
    } else {
        after == before
    }
}

/// Writes into `out` the UTF-8 bytes of the module's name, or the buffer
/// without data, `(null, 0)`, where the module has no name.
pub fn wasm_module_name(module: &ModuleHandle, out: &mut ByteVector)
    ensures
        final(out)@ == name_bytes(module@),
        module@ is None ==> final(out)@ == None::<Seq<u8>>,
{
    match module.inner.name() {
        Some(name) => {
            *out = ByteVector::from_text(name);
        },
        None => {
            *out = ByteVector::null();
        },
    }
}

/// Sets the module's name to the text in `name`, and tells whether it did.
///
/// It does so only where `name` holds well-formed UTF-8 and this handle is
/// the sole owner of the module; otherwise it returns `false` and the name
/// stays as it was. The two causes of failure are not told apart.
pub fn wasm_module_set_name(module: &mut ModuleHandle, name: &ByteVector) -> (r: bool)
    ensures
        set_name_outcome(old(module)@, name@, r, final(module)@),
        text_of(name@) is None ==> !r && final(module)@ == old(module)@,
{
    let text = match name.to_text() {
        Some(text) => text,
        None => return false,
    };
    match arc_get_mut(&mut module.inner) {
        Some(m) => {
            m.set_name(text.as_str());
            true
        },
        None => false,
    }
}

} // verus!
