use vstd::prelude::*;

verus! {

/// Messages of the network details screen: open or close the dialog, or
/// forget the network (which closes it).
#[derive(Clone, Copy, Debug, PartialEq, Eq, Structural)]
pub enum NetworkDetailsMessage {
    OpenModel(bool),
    ForgetNetwork,
}

#[derive(Clone, Copy, Debug, PartialEq, Eq, Structural)]
pub struct NetworkDetailsState {
    pub is_model_open: bool,
}

/// One address of a network interface, as read from the system.
pub struct IpEntry {
    pub is_ipv4: bool,
    pub address: String,
}

/// A network interface and its addresses, in the order the system lists them.
pub struct InterfaceAddresses {
    pub name: String,
    pub addresses: Vec<IpEntry>,
}

/// Wireless interfaces are the ones whose name starts with "wl".
pub open spec fn is_wireless_name(name: Seq<char>) -> bool {
    name.len() >= 2 && name[0] == 'w' && name[1] == 'l'
}

/// The first IPv4 address in `addresses`.
pub open spec fn first_ipv4(addresses: Seq<IpEntry>) -> Option<Seq<char>>
    decreases addresses.len(),
{
    if addresses.len() == 0 {
        None
    } else if addresses[0].is_ipv4 {
        Some(addresses[0].address@)
    } else {
        first_ipv4(addresses.drop_first())
    }
}

/// The first IPv4 address of the first wireless interface that has one.
pub open spec fn wireless_ipv4(interfaces: Seq<InterfaceAddresses>) -> Option<Seq<char>>
    decreases interfaces.len(),
{
    if interfaces.len() == 0 {
        None
    } else if is_wireless_name(interfaces[0].name@) && first_ipv4(interfaces[0].addresses@) is Some {
        first_ipv4(interfaces[0].addresses@)
    } else {
        wireless_ipv4(interfaces.drop_first())
    }
}

fn is_wireless(name: &String) -> (r: bool)
    ensures
        r == is_wireless_name(name@),
{
    let s = name.as_str();
    if s.unicode_len() < 2 {
        return false;
    }
    s.get_char(0) == 'w' && s.get_char(1) == 'l'
}

fn find_ipv4(addresses: &Vec<IpEntry>) -> (r: Option<String>)
    ensures
        match r {
            Some(a) => first_ipv4(addresses@) == Some(a@),
            None => first_ipv4(addresses@) is None,
        },
{
    let n = addresses.len();
    let mut i: usize = 0;
    assert(addresses@.subrange(0, n as int) =~= addresses@);
    while i < n
        invariant
            n == addresses@.len(),
            i <= n,
            first_ipv4(addresses@) == first_ipv4(addresses@.subrange(i as int, n as int)),
        decreases n - i,
    {
        let ghost rest = addresses@.subrange(i as int, n as int);
        assert(rest.drop_first() =~= addresses@.subrange(i + 1, n as int));
        if addresses[i].is_ipv4 {
            return Some(addresses[i].address.clone());
        }
        i = i + 1;
    }
    None
}

pub struct NetworkDetails {
    state: NetworkDetailsState,
}

impl NetworkDetails {
    pub fn new() -> (r: NetworkDetails)
        ensures
            !r.is_model_open_spec(),
    {
        NetworkDetails { state: NetworkDetailsState { is_model_open: false } }
    }

    pub closed spec fn is_model_open_spec(&self) -> bool {
        self.state.is_model_open
    }

    pub fn is_model_open(&self) -> (r: bool)
        ensures
            r == self.is_model_open_spec(),
    {
        self.state.is_model_open
    }

    pub fn update(&mut self, message: NetworkDetailsMessage)
        ensures
            final(self).is_model_open_spec() == match message {
                NetworkDetailsMessage::OpenModel(value) => value,
                NetworkDetailsMessage::ForgetNetwork => false,
            },
    {
        match message {
            NetworkDetailsMessage::OpenModel(value) => {
                self.state.is_model_open = value;
            },
            NetworkDetailsMessage::ForgetNetwork => {
                self.state.is_model_open = false;
            },
        }
    }

    /// The address shown for the connected network: the first IPv4 address of
    /// the first wireless interface in `interfaces` that has one.
    pub fn get_ip_address(interfaces: &Vec<InterfaceAddresses>) -> (r: Option<String>)
        ensures
            match r {
                Some(a) => wireless_ipv4(interfaces@) == Some(a@),
                None => wireless_ipv4(interfaces@) is None,
            },
    {
        let n = interfaces.len();
        let mut i: usize = 0;
        assert(interfaces@.subrange(0, n as int) =~= interfaces@);
        while i < n
            invariant
                n == interfaces@.len(),
                i <= n,
                wireless_ipv4(interfaces@) == wireless_ipv4(interfaces@.subrange(i as int, n as int)),
            decreases n - i,
        {
            let ghost rest = interfaces@.subrange(i as int, n as int);
            assert(rest.drop_first() =~= interfaces@.subrange(i + 1, n as int));
            let iface = &interfaces[i];
            if is_wireless(&iface.name) {
                match find_ipv4(&iface.addresses) {
                    Some(a) => {
                        return Some(a);
                    },
                    None => {},
                }
            }
            i = i + 1;
        }
        None
    }
}

} // verus!
