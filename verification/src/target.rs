//! The connection to the virtual-HID bus and the pads attached to it.
//!
//! `Client` owns the one bus connection of the process; `Target` is one
//! virtual pad currently attached to the bus. Both are exclusively owned
//! and cannot be copied: the broker is their only holder, which is what
//! satisfies the driver's single-threaded-access requirement. The native
//! handle itself lives at the unverified edge of the program; here the
//! pad carries exactly what the broker's logic reads and writes: vendor
//! and product ID, the driver-assigned user index, the registration
//! flag for the notification callback, the last report submitted, and
//! the full history of submitted reports.

use vstd::prelude::*;

use core::marker::PhantomData;

use crate::error::Error;
use crate::state::{neutral_report, X360State, XusbReport};

verus! {

/// A connection to the bus.
pub struct Client {
    _private: (),
}

/// A marker type: a target of this kind is an Xbox-360 pad.
#[derive(Debug, Clone, Copy)]
pub struct X360;

impl Client {
    /// Allocate a new client, connect it and return it.
    ///
    /// The native allocation and handshake live at the unverified edge;
    /// the modeled bus is always present, so connecting succeeds. A
    /// process whose bus is missing fails there with `NoVigemAlloc` or a
    /// bus error kind before a `Client` ever exists.
    pub fn new() -> (r: Result<Client, Error>)
        ensures
            r is Ok,
    {
        Ok(Client { _private: () })
    }

    /// Create a new Xbox-360 pad target and attach it to the bus. The
    /// fresh pad carries the stock Xbox-360 vendor and product ID, has
    /// no notification callback registered, and reports the neutral
    /// state until its first update.
    pub fn connect_x360_pad(&self) -> (r: Result<Target<X360>, Error>)
        ensures
            r matches Ok(t) ==> {
                &&& t.spec_vendor_id() == 0x045E
                &&& t.spec_product_id() == 0x028E
                &&& !t.spec_has_notification()
                &&& t.history() == Seq::<XusbReport>::empty()
                &&& t.spec_last_report() == neutral_report()
            },
            r is Ok,
    {
        Ok(
            Target {
                vendor_id: 0x045E,
                product_id: 0x028E,
                user_index: 0,
                has_notification: false,
                last_report: X360State::default().to_xusb_report(),
                history: Ghost(Seq::empty()),
                _marker: PhantomData,
            },
        )
    }
}

/// One virtual pad attached to the bus; the marker type says which kind
/// of pad it emulates.
pub struct Target<Kind> {
    vendor_id: u16,
    product_id: u16,
    user_index: u32,
    has_notification: bool,
    last_report: XusbReport,
    history: Ghost<Seq<XusbReport>>,
    _marker: PhantomData<Kind>,
}

/// The token returned by a successful notification registration. It has
/// no operations of its own: it exists to be exchanged exactly once, at
/// unregistration, for the release of the callback's allocation.
#[derive(Debug)]
pub struct NotificationHandle {
    _private: (),
}

impl<Kind> Target<Kind> {
    pub closed spec fn spec_vendor_id(&self) -> u16 {
        self.vendor_id
    }

    pub closed spec fn spec_product_id(&self) -> u16 {
        self.product_id
    }

    /// The user index the driver assigned to this pad at attach; which
    /// index that is lies with the driver, so attaching does not pin it.
    pub closed spec fn spec_user_index(&self) -> u32 {
        self.user_index
    }

    /// Whether a notification callback is currently registered.
    pub closed spec fn spec_has_notification(&self) -> bool {
        self.has_notification
    }

    /// The last report submitted to the driver, or the neutral report
    /// before the first update.
    pub closed spec fn spec_last_report(&self) -> XusbReport {
        self.last_report
    }

    /// Every report submitted to the driver for this pad, oldest first.
    pub closed spec fn history(&self) -> Seq<XusbReport> {
        self.history@
    }

    /// The last report submitted to the driver, as a value; the
    /// neutral report before the first update.
    pub fn last_report_value(&self) -> (r: XusbReport)
        ensures
            r == self.spec_last_report(),
    {
        self.last_report
    }

    /// Whether a notification callback is currently registered.
    pub fn has_notification(&self) -> (r: bool)
        ensures
            r == self.spec_has_notification(),
    {
        self.has_notification
    }

    /// Get this target's vendor ID.
    pub fn vendor_id(&self) -> (r: u16)
        ensures
            r == self.spec_vendor_id(),
    {
        self.vendor_id
    }

    /// Set this target's vendor ID.
    pub fn set_vendor_id(&mut self, vendor_id: u16)
        ensures
            final(self).spec_vendor_id() == vendor_id,
            final(self).spec_product_id() == old(self).spec_product_id(),
            final(self).spec_user_index() == old(self).spec_user_index(),
            final(self).spec_has_notification() == old(self).spec_has_notification(),
            final(self).spec_last_report() == old(self).spec_last_report(),
            final(self).history() == old(self).history(),
    {
        self.vendor_id = vendor_id;
    }

    /// Get this target's product ID.
    pub fn product_id(&self) -> (r: u16)
        ensures
            r == self.spec_product_id(),
    {
        self.product_id
    }

    /// Set this target's product ID.
    pub fn set_product_id(&mut self, product_id: u16)
        ensures
            final(self).spec_product_id() == product_id,
            final(self).spec_vendor_id() == old(self).spec_vendor_id(),
            final(self).spec_user_index() == old(self).spec_user_index(),
            final(self).spec_has_notification() == old(self).spec_has_notification(),
            final(self).spec_last_report() == old(self).spec_last_report(),
            final(self).history() == old(self).history(),
    {
        self.product_id = product_id;
    }

    /// Remove this target from the bus and release it, in that order;
    /// consuming the pad is what makes the teardown run exactly once.
    ///
    /// A pad removed while a notification callback is still registered
    /// leaks that callback's allocation: the release happens only at
    /// unregistration. That is a documented caller responsibility, not a
    /// failure — the removal itself still succeeds.
    pub fn remove(self) -> (r: Result<(), Error>)
        ensures
            r is Ok,
    {
        Ok(())
    }
}

impl Target<X360> {
    /// Get this pad's user index, as the driver assigned it at attach.
    pub fn user_index(&self) -> (r: Result<u32, Error>)
        ensures
            r == Ok::<u32, Error>(self.spec_user_index()),
    {
        Ok(self.user_index)
    }

    /// Submit `state` to the driver as this pad's new report. The
    /// report is appended to the pad's history and becomes its last
    /// report; nothing else about the pad changes.
    pub fn update(&mut self, state: X360State) -> (r: Result<(), Error>)
        ensures
            r is Ok,
            final(self).history() == old(self).history().push(state.spec_report()),
            final(self).spec_last_report() == state.spec_report(),
            final(self).spec_vendor_id() == old(self).spec_vendor_id(),
            final(self).spec_product_id() == old(self).spec_product_id(),
            final(self).spec_user_index() == old(self).spec_user_index(),
            final(self).spec_has_notification() == old(self).spec_has_notification(),
    {
        let report = state.to_xusb_report();
        self.last_report = report;
        proof {
            self.history@ = self.history@.push(report);
        }
        Ok(())
    }

    /// Register the notification callback for this target.
    ///
    /// At most one registration may be active at a time: while one is,
    /// a second registration fails with `AlreadyHasCallback` and leaves
    /// the existing registration intact. On success the returned handle
    /// must later be passed to `unregister_notification`, or the
    /// callback's allocation is never reclaimed.
    ///
    /// The callback object itself lives with the unverified bridge that
    /// the driver's thread calls into; this pad tracks the registration
    /// state that guards it.
    pub fn register_notification(&mut self) -> (r: Result<NotificationHandle, Error>)
        ensures
            old(self).spec_has_notification() ==> {
                &&& r == Err::<NotificationHandle, Error>(Error::AlreadyHasCallback)
                &&& *final(self) == *old(self)
            },
            !old(self).spec_has_notification() ==> r is Ok,
            final(self).spec_has_notification(),
            final(self).spec_vendor_id() == old(self).spec_vendor_id(),
            final(self).spec_product_id() == old(self).spec_product_id(),
            final(self).spec_user_index() == old(self).spec_user_index(),
            final(self).spec_last_report() == old(self).spec_last_report(),
            final(self).history() == old(self).history(),
    {
        if self.has_notification {
            return Err(Error::AlreadyHasCallback);
        }
        self.has_notification = true;
        Ok(NotificationHandle { _private: () })
    }

    /// Unregister the current notification callback, exchanging the
    /// handle for the release of the callback's allocation.
    pub fn unregister_notification(&mut self, handle: NotificationHandle)
        ensures
            !final(self).spec_has_notification(),
            final(self).spec_vendor_id() == old(self).spec_vendor_id(),
            final(self).spec_product_id() == old(self).spec_product_id(),
            final(self).spec_user_index() == old(self).spec_user_index(),
            final(self).spec_last_report() == old(self).spec_last_report(),
            final(self).history() == old(self).history(),
    {
        let _ = handle;
        self.has_notification = false;
    }
}

} // verus!
