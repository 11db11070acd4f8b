//! The server object of a script, and the addresses that it binds.

use crate::php::{PhpClass, PhpException, PhpValue, ValueType};
use crate::quiche::error::{BindError, QuicheError};
use crate::quiche::lifecycle::Step;
use crate::quiche::socket::{closes_rest, QuicheServerSocketImpl, ServerAction, ServerEvent};
use crate::text::{append_number, lemma_digits_of_number, number_text, numeral_value};
use tokio_eventfd::EventFd;
use vstd::prelude::*;
use vstd::string::*;

verus! {

#[verifier::external_type_specification]
#[verifier::external_body]
pub struct ExEventFd(tokio_eventfd::EventFd);

/// An address to bind, and a port.
#[derive(Debug)]
pub struct SocketAddress {
    pub address: String,
    pub port: u16,
}

impl SocketAddress {
    /// The address and the port, as one text.
    pub open spec fn text(self) -> Seq<char> {
        self.address@ + ":"@ + number_text(self.port as nat, 10)
    }

    pub fn __construct(address: String, port: u16) -> (r: Self)
        ensures
            r == (SocketAddress { address, port }),
    {
        SocketAddress { address, port }
    }

    pub fn get_address(&self) -> (r: String)
        ensures
            r@ == self.address@,
    {
        self.address.clone()
    }

    pub fn set_address(&mut self, address: String)
        ensures
            *final(self) == (SocketAddress { address, ..*old(self) }),
    {
        self.address = address;
    }

    pub fn get_port(&self) -> (r: u16)
        ensures
            r == self.port,
    {
        self.port
    }

    pub fn set_port(&mut self, port: u16)
        ensures
            *final(self) == (SocketAddress { port, ..*old(self) }),
    {
        self.port = port;
    }

    /// The address and the port, as one text.
    pub fn get_address_result(&self) -> (r: String)
        ensures
            r@ == self.text(),
    {
        let mut out: String = self.address.clone();
        out.append(":");
        append_number(&mut out, self.port as u128, 10);
        assert(out@ =~= self.text());
        out
    }
}

/// What a script is told where its callback cannot be called.
pub open spec fn not_callable_text(value_type: ValueType) -> Seq<char> {
    "The $on_stream argument must be a callable (function, closure, or invokable object). Received: "@
        + value_type.name()
}

/// What is to be done for a new server: the addresses to bind, and the event descriptor to
/// duplicate, if the script gave one.
#[derive(Debug)]
pub struct BindPlan<C> {
    pub addrs: Vec<String>,
    pub event_fd: Option<i32>,
    pub on_stream: C,
}

/// The server object of a script.
pub struct QuicheServerSocket<C> {
    pub inner: QuicheServerSocketImpl<C>,
    pub event_fd: Option<EventFd>,
}

impl<C: Clone> QuicheServerSocket<C> {
    /// The first step of making a server: the script's callback is checked. An event descriptor
    /// of -1 stands for none.
    pub fn prepare(
        sockets: Vec<&SocketAddress>,
        event_fd_id: i32,
        on_stream: PhpValue<C>,
    ) -> (r: Result<BindPlan<C>, PhpException>)
        ensures
            match r {
                Ok(plan) => {
                    &&& on_stream.callable
                    &&& plan.on_stream == on_stream.value
                    &&& plan.event_fd == (if event_fd_id == -1 {
                        None
                    } else {
                        Some(event_fd_id)
                    })
                    &&& plan.addrs@.len() == sockets@.len()
                    &&& forall|i: int|
                        0 <= i < plan.addrs@.len() ==> (#[trigger] plan.addrs@[i])@
                            == sockets@[i].text()
                },
                Err(e) => !on_stream.callable && e.says(
                    PhpClass::InvalidArgumentException,
                    not_callable_text(on_stream.value_type),
                ),
            },
    {
        if !on_stream.callable {
            let mut message: String = String::new();
            message.append(
                "The $on_stream argument must be a callable (function, closure, or invokable object). Received: ",
            );
            message.append(on_stream.value_type.as_name());
            assert(message@ =~= not_callable_text(on_stream.value_type));
            return Err(PhpException { class: PhpClass::InvalidArgumentException, message });
        }
        let mut addrs: Vec<String> = Vec::new();
        let mut i: usize = 0;
        while i < sockets.len()
            invariant
                i <= sockets@.len(),
                addrs@.len() == i,
                forall|k: int| 0 <= k < i ==> (#[trigger] addrs@[k])@ == sockets@[k].text(),
            decreases sockets@.len() - i,
        {
            addrs.push(sockets[i].get_address_result());
            i = i + 1;
        }
        let event_fd: Option<i32> = if event_fd_id != -1 {
            Some(event_fd_id)
        } else {
            None
        };
        Ok(BindPlan { addrs, event_fd, on_stream: on_stream.value })
    }

    /// The last step of making a server: what came of binding its sockets, and the event
    /// descriptor, if one could be had.
    pub fn __construct(
        bound: Result<QuicheServerSocketImpl<C>, BindError>,
        event_fd: Option<EventFd>,
    ) -> (r: Result<Self, QuicheError>)
        ensures
            r == (match bound {
                Ok(inner) => Ok(QuicheServerSocket { inner, event_fd }),
                Err(e) => Err(QuicheError::RuntimeInit(e.message)),
            }),
    {
        match bound {
            Ok(inner) => Ok(QuicheServerSocket { inner, event_fd }),
            Err(e) => Err(QuicheError::RuntimeInit(e.message)),
        }
    }

    /// One round of the server's loop. The script gets control back when it asks for it through
    /// the event descriptor or, where there is none, once a source of events has ended.
    pub fn tick(&mut self, event: ServerEvent) -> (r: ServerAction<C>)
        requires
            old(self).inner.wf(),
        ensures
            final(self).inner.wf(),
            final(self).inner.same_ends(&old(self).inner),
            final(self).inner.listening == old(self).inner.listening,
            old(self).inner.on_tick(event, old(self).event_fd is Some, r, &final(self).inner),
            event is Exhausted ==> (r is Exit <==> old(self).event_fd is None),
            final(self).event_fd == old(self).event_fd,
    {
        let has_event_fd: bool = self.event_fd.is_some();
        self.inner.tick(event, has_event_fd)
    }

    /// Shuts the server down and gives up the event descriptor, which closes it. What the script
    /// is to be told of its streams comes from the server's `next_notice`.
    pub fn close(&mut self)
        requires
            old(self).inner.wf(),
        ensures
            final(self).inner.wf(),
            final(self).inner.same_ends(&old(self).inner),
            !final(self).inner.listening,
            final(self).inner.server_view() == old(self).inner.server_view().take(Step::Shutdown),
            closes_rest(
                old(self).inner.server_view(),
                old(self).inner.closing@,
                final(self).inner.closing@,
            ),
            final(self).event_fd is None,
    {
        self.inner.close();
        self.event_fd = None;
    }
}

/// The text of an address is the address, a colon and the port: from it both can be read again.
pub proof fn law_address_can_be_read_again(a: SocketAddress)
    ensures
        ({
            let n = a.address@.len() as int;
            &&& a.text().len() > n + 1
            &&& a.text().subrange(0, n) == a.address@
            &&& a.text()[n] == ':'
            &&& numeral_value(a.text().skip(n + 1), 10, u16::MAX as nat) == Some(a.port as nat)
            &&& a.text().skip(n + 1) == number_text(a.port as nat, 10)
        }),
{
    reveal_strlit(":");
    lemma_digits_of_number(a.port as nat, 10);
    let n = a.address@.len() as int;
    assert(a.text().subrange(0, n) =~= a.address@);
    assert(a.text().skip(n + 1) =~= number_text(a.port as nat, 10));
}

/// What a script is told of a callback that cannot be called ends with the type of what it gave.
pub proof fn law_refused_callback_is_named(value_type: ValueType)
    ensures
        not_callable_text(value_type)
            == "The $on_stream argument must be a callable (function, closure, or invokable object). Received: "@
            + value_type.name(),
{
}

} // verus!
