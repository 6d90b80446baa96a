//! Values shared between the loop and the systems it runs.

use vstd::prelude::*;
use std::sync::mpsc::Sender;
use std::sync::Arc;

verus! {

/// Number of nanoseconds in one second.
pub const NANOS_PER_SECOND: u64 = 1_000_000_000;

/// The fixed step of one simulation tick: one second divided by
/// `ticks_per_second`. The rate is kept rather than the quotient, so the step
/// is exact.
#[derive(Clone, Copy, PartialEq, Eq, Structural, Debug)]
pub struct Delta {
    pub ticks_per_second: u16,
}

impl Delta {
    /// The step in whole nanoseconds, rounded down.
    pub open spec fn nanos(self) -> nat {
        NANOS_PER_SECOND as nat / self.ticks_per_second as nat
    }

    /// The step in whole nanoseconds, rounded down.
    pub fn as_nanos(&self) -> (ns: u64)
        requires
            self.ticks_per_second > 0,
        ensures
            ns == self.nanos(),
    {
        NANOS_PER_SECOND / (self.ticks_per_second as u64)
    }
}

/// `std::sync::mpsc::Sender`, the sending half of a channel.
#[verifier::external_type_specification]
#[verifier::external_body]
#[verifier::reject_recursive_types(T)]
pub struct ExSender<T>(Sender<T>);

/// `Sender::clone`: another sender for the same channel. Nothing is claimed
/// of it.
pub assume_specification<T>[ <Sender<T> as Clone>::clone ](sender: &Sender<T>) -> (other: Sender<T>);

/// What a system needs to record commands for the running frame.
pub struct RenderContext {
    /// The device that creates the command encoders.
    pub device: Arc<::wgpu::Device>,
    /// The view of the surface that the frame draws into.
    pub view: Arc<::wgpu::TextureView>,
    /// Where a recorded encoder is sent for submission.
    pub tx: Sender<::wgpu::CommandEncoder>,
}

impl RenderContext {
    /// What a system records with: `encoder`, which the caller has created
    /// on the context's device, the view to draw into, and a sender for the
    /// encoder once it is recorded.
    pub fn get_context(&self, encoder: ::wgpu::CommandEncoder) -> (context: (
        ::wgpu::CommandEncoder,
        Arc<::wgpu::TextureView>,
        Sender<::wgpu::CommandEncoder>,
    ))
        ensures
            context.0 == encoder,
            context.1 == self.view,
    {
        (encoder, Arc::clone(&self.view), self.tx.clone())
    }
}

} // verus!
