//! Cells that are filled once: explicitly, or by a function on first use.
//! A cell that has not been filled yields nothing when it is read.

use vstd::prelude::*;

verus! {

/// A cell that starts empty and takes a value once.
#[derive(Debug)]
pub struct LateInit<T> {
    value: Option<T>,
}

impl<T> View for LateInit<T> {
    type V = Option<T>;

    closed spec fn view(&self) -> Option<T> {
        self.value
    }
}

impl<T> LateInit<T> {
    /// An empty cell.
    pub fn new() -> (cell: Self)
        ensures
            cell@ is None,
    {
        Self { value: None }
    }

    /// Fills the cell. A cell that is already filled keeps what it holds and
    /// hands the new value back.
    pub fn init(&mut self, value: T) -> (result: Result<(), T>)
        ensures
            match old(self)@ {
                None => result is Ok && final(self)@ == Some(value),
                Some(_) => result == Err::<(), T>(value) && final(self)@ == old(self)@,
            },
    {
        if self.value.is_some() {
            Err(value)
        } else {
            self.value = Some(value);
            Ok(())
        }
    }

    /// Whether the cell has been filled.
    pub fn initialized(&self) -> (filled: bool)
        ensures
            filled == (self@ is Some),
    {
        self.value.is_some()
    }

    /// What the cell holds; `None` while it is empty.
    pub fn get(&self) -> (value: Option<&T>)
        ensures
            match value {
                Some(v) => self@ == Some(*v),
                None => self@ is None,
            },
    {
        self.value.as_ref()
    }
}

/// A cell that is filled by its initializer when it is first read.
#[verifier::reject_recursive_types(T)]
#[verifier::reject_recursive_types(F)]
pub struct Lazy<T, F: Fn() -> T> {
    initializer: F,
    holder: LateInit<T>,
}

impl<T, F: Fn() -> T> Lazy<T, F> {
    /// What the cell holds, once it has been read.
    pub closed spec fn value(&self) -> Option<T> {
        self.holder@
    }

    /// The function that fills the cell.
    pub closed spec fn initializer(&self) -> F {
        self.initializer
    }

    /// A cell that `initializer` fills on first use.
    pub fn new(initializer: F) -> (cell: Self)
        ensures
            cell.value() is None,
            cell.initializer() == initializer,
    {
        Self { initializer, holder: LateInit::new() }
    }

    /// Reads the cell. An empty cell is filled first, with what the
    /// initializer hands out; a filled cell keeps its value.
    pub fn force(&mut self) -> (value: &T)
        requires
            call_requires(old(self).initializer(), ()),
        ensures
            final(self).value() == Some(*value),
            final(self).initializer() == old(self).initializer(),
            match old(self).value() {
                Some(held) => *value == held,
                None => call_ensures(old(self).initializer(), (), *value),
            },
    {
        if !self.holder.initialized() {
            let made = (self.initializer)();
            let _ = self.holder.init(made);
        }
        self.holder.get().unwrap()
    }
}

} // verus!
