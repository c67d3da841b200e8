use vstd::prelude::*;

use crate::async_handler::{
    async_response, routes_to, AsyncHandler, AsyncHandlerResponse, DispatchError, HandlerModel,
    Payload, PayloadView, Routed,
};

verus! {

/// Why a response addressed to a screen could not be taken in.
#[derive(Clone, Copy, Debug, PartialEq, Eq, Structural)]
pub enum ResponseError {
    /// The response answers the screen's request with a payload of another kind:
    /// the request site and the response site disagree.
    TypeMismatch,
}

pub struct BluetoothState {
    status: bool,
    devices: Vec<String>,
    status_request: Option<String>,
}

pub ghost struct BluetoothModel {
    pub status: bool,
    pub devices: Seq<Seq<char>>,
    /// The identifier of the status query in flight, if any.
    pub status_request: Option<Seq<char>>,
}

impl View for BluetoothState {
    type V = BluetoothModel;

    closed spec fn view(&self) -> BluetoothModel {
        BluetoothModel {
            status: self.status,
            devices: self.devices@.map_values(|s: String| s@),
            status_request: match self.status_request {
                Some(id) => Some(id@),
                None => None,
            },
        }
    }
}

/// The Bluetooth screen: whether Bluetooth is on, and the devices it knows.
pub struct BluetoothScreen {
    state: BluetoothState,
}

impl View for BluetoothScreen {
    type V = BluetoothModel;

    closed spec fn view(&self) -> BluetoothModel {
        self.state@
    }
}

impl BluetoothScreen {
    pub fn new() -> (r: BluetoothScreen)
        ensures
            !r@.status,
            r@.devices.len() == 0,
            r@.status_request is None,
    {
        let r = BluetoothScreen {
            state: BluetoothState { status: false, devices: Vec::new(), status_request: None },
        };
        assert(r@.devices =~= Seq::<Seq<char>>::empty());
        r
    }

    pub fn status(&self) -> (r: bool)
        ensures
            r == self@.status,
    {
        self.state.status
    }

    pub fn devices(&self) -> (r: &Vec<String>)
        ensures
            r@.map_values(|s: String| s@) == self@.devices,
    {
        &self.state.devices
    }

    /// Dispatches the status query under `id`; the screen then waits for the
    /// response with that identifier.
    pub fn request_status(&mut self, handler: &mut AsyncHandler, id: &str) -> (r: Result<
        u64,
        DispatchError,
    >)
        requires
            old(handler)@.wf(),
        ensures
            r == old(handler)@.dispatch_result(),
            final(handler)@ == old(handler)@.after_dispatch(id@),
            final(handler)@.wf(),
            final(self)@ == (if r is Ok {
                BluetoothModel { status_request: Some(id@), ..old(self)@ }
            } else {
                old(self)@
            }),
    {
        let r = handler.call(id);
        if r.is_ok() {
            self.state.status_request = Some(id.to_owned());
        }
        r
    }

    /// The continuation of the status query: a response to it sets the status
    /// (off when the backend call failed) and ends the wait; any other
    /// response leaves the screen as it is.
    pub fn update(&mut self, message: &AsyncHandlerResponse) -> (r: Result<(), ResponseError>)
        ensures
            match old(self)@.status_request {
                Some(id) if routes_to(message@, id) => match message@.payload {
                    Some(PayloadView::Flag(b)) => r is Ok && final(self)@ == (BluetoothModel {
                        status: b,
                        status_request: None,
                        ..old(self)@
                    }),
                    None => r is Ok && final(self)@ == (BluetoothModel {
                        status: false,
                        status_request: None,
                        ..old(self)@
                    }),
                    Some(_) => r == Err::<(), ResponseError>(ResponseError::TypeMismatch)
                        && final(self)@ == old(self)@,
                },
                _ => r is Ok && final(self)@ == old(self)@,
            },
    {
        let routed = match &self.state.status_request {
            Some(id) => async_response(message, id.as_str()),
            None => Routed::Ignored,
        };
        match routed {
            Routed::Ignored => Ok(()),
            Routed::Failed => {
                self.state.status = false;
                self.state.status_request = None;
                Ok(())
            },
            Routed::Delivered(Payload::Flag(b)) => {
                self.state.status = *b;
                self.state.status_request = None;
                Ok(())
            },
            Routed::Delivered(_) => Err(ResponseError::TypeMismatch),
        }
    }
}

} // verus!
