use vstd::prelude::*;

verus! {

/// What a queued ("prepared") write has gathered so far: the buffer that
/// collects the fragments, once one exists, and the number of bytes written.
pub struct PrepareTypeEnv {
    pub prepare_buf: Option<Vec<u8>>,
    pub prepare_len: u16,
}

/// The mathematical value of a `PrepareTypeEnv`.
pub struct PrepareEnvView {
    pub prepare_buf: Option<Seq<u8>>,
    pub prepare_len: u16,
}

impl View for PrepareTypeEnv {
    type V = PrepareEnvView;

    open spec fn view(&self) -> PrepareEnvView {
        PrepareEnvView {
            prepare_buf: match self.prepare_buf {
                Some(b) => Some(b@),
                None => None,
            },
            prepare_len: self.prepare_len,
        }
    }
}

/// The environment before any prepared write: no buffer, nothing written.
pub open spec fn empty_prepare_env() -> PrepareEnvView {
    PrepareEnvView { prepare_buf: None, prepare_len: 0 }
}

impl Default for PrepareTypeEnv {
    fn default() -> (env: Self)
        ensures
            env@ == empty_prepare_env(),
    {
        PrepareTypeEnv { prepare_buf: None, prepare_len: 0 }
    }
}

impl PrepareTypeEnv {
    /// Moves the environment to the heap and hands back the owning handle.
    pub fn as_mut_ptr(self) -> (boxed: Box<PrepareTypeEnv>)
        ensures
            (*boxed)@ == self@,
    {
        Box::new(self)
    }
}

} // verus!
