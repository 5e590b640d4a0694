//! The route and node model: what a caller asks to be routed, and how.

use vstd::prelude::*;

verus! {

/// An IP address, held as the integer its octets spell in network order.
#[derive(Clone, Copy, Debug, PartialEq, Eq, Hash, Structural)]
pub enum IpAddress {
    V4(u32),
    V6(u128),
}

impl IpAddress {
    /// The longest prefix a network over this address family can have.
    pub open spec fn spec_max_prefix(self) -> u8 {
        match self {
            IpAddress::V4(_) => 32u8,
            IpAddress::V6(_) => 128u8,
        }
    }

    pub fn max_prefix(&self) -> (bits: u8)
        ensures
            bits == self.spec_max_prefix(),
    {
        match self {
            IpAddress::V4(_) => 32,
            IpAddress::V6(_) => 128,
        }
    }
}

/// A destination network: an address and the length of its prefix.
#[derive(Clone, Copy, Debug, PartialEq, Eq, Hash, Structural)]
pub struct IpNetwork {
    pub address: IpAddress,
    pub prefix: u8,
}

impl IpNetwork {
    /// The prefix is no longer than the address family allows.
    pub open spec fn valid(self) -> bool {
        self.prefix <= self.address.spec_max_prefix()
    }

    /// Builds a network, or nothing where the prefix is too long for the
    /// address family.
    pub fn new(address: IpAddress, prefix: u8) -> (network: Option<IpNetwork>)
        ensures
            prefix <= address.spec_max_prefix() ==> network == Some(
                (IpNetwork { address, prefix }),
            ),
            prefix > address.spec_max_prefix() ==> network is None,
    {
        if prefix <= address.max_prefix() {
            Some(IpNetwork { address, prefix })
        } else {
            None
        }
    }
}

/// An explicit next hop: an address, an outbound interface, or both.
#[derive(Clone, Debug, PartialEq, Eq, Hash)]
pub struct Node {
    pub address: Option<IpAddress>,
    pub interface: Option<String>,
}

pub ghost struct NodeView {
    pub address: Option<IpAddress>,
    pub interface: Option<Seq<char>>,
}

/// The view of an optional interface name.
pub open spec fn name_view(name: Option<String>) -> Option<Seq<char>> {
    match name {
        Some(s) => Some(s@),
        None => None,
    }
}

/// Clones an optional interface name.
pub fn clone_name(name: &Option<String>) -> (copy: Option<String>)
    ensures
        name_view(copy) == name_view(*name),
{
    match name {
        Some(s) => Some(s.clone()),
        None => None,
    }
}

/// Whether two optional interface names spell the same.
pub fn same_name(a: &Option<String>, b: &Option<String>) -> (same: bool)
    ensures
        same == (name_view(*a) == name_view(*b)),
{
    match (a, b) {
        (Some(x), Some(y)) => x.eq(y),
        (None, None) => true,
        _ => false,
    }
}

/// Whether two optional addresses are the same.
pub fn same_address(a: &Option<IpAddress>, b: &Option<IpAddress>) -> (same: bool)
    ensures
        same == (*a == *b),
{
    match (a, b) {
        (Some(x), Some(y)) => *x == *y,
        (None, None) => true,
        _ => false,
    }
}

impl View for Node {
    type V = NodeView;

    open spec fn view(&self) -> NodeView {
        NodeView { address: self.address, interface: name_view(self.interface) }
    }
}

impl Node {
    /// Structural equality, decided on the fields.
    pub fn same(&self, other: &Node) -> (same: bool)
        ensures
            same == (self@ == other@),
    {
        same_address(&self.address, &other.address) && same_name(
            &self.interface,
            &other.interface,
        )
    }
}

/// How a route leaves the machine.
#[derive(Clone, Debug, PartialEq, Eq, Hash)]
pub enum NetNode {
    /// Through the explicit next hop.
    RealNode(Node),
    /// Through whatever the system's default gateway currently is.
    DefaultNode,
}

pub ghost enum NetNodeView {
    RealNode(NodeView),
    DefaultNode,
}

impl View for NetNode {
    type V = NetNodeView;

    open spec fn view(&self) -> NetNodeView {
        match self {
            NetNode::RealNode(node) => NetNodeView::RealNode(node@),
            NetNode::DefaultNode => NetNodeView::DefaultNode,
        }
    }
}

impl NetNode {
    /// Structural equality, decided on the variant and its fields.
    pub fn same(&self, other: &NetNode) -> (same: bool)
        ensures
            same == (self@ == other@),
    {
        match (self, other) {
            (NetNode::RealNode(a), NetNode::RealNode(b)) => a.same(b),
            (NetNode::DefaultNode, NetNode::DefaultNode) => true,
            _ => false,
        }
    }
}

/// A destination network that must stay routed a given way.
#[derive(Clone, Debug, PartialEq, Eq, Hash)]
pub struct RequiredRoute {
    pub destination: IpNetwork,
    pub via: NetNode,
}

pub ghost struct RequiredRouteView {
    pub destination: IpNetwork,
    pub via: NetNodeView,
}

impl View for RequiredRoute {
    type V = RequiredRouteView;

    open spec fn view(&self) -> RequiredRouteView {
        RequiredRouteView { destination: self.destination, via: self.via@ }
    }
}

impl RequiredRoute {
    pub fn new(destination: IpNetwork, via: NetNode) -> (route: RequiredRoute)
        ensures
            route == (RequiredRoute { destination, via }),
    {
        RequiredRoute { destination, via }
    }

    /// Structural equality, decided on the fields.
    pub fn same(&self, other: &RequiredRoute) -> (same: bool)
        ensures
            same == (self@ == other@),
    {
        self.destination == other.destination && self.via.same(&other.via)
    }
}

/// A set of required routes: no route occurs twice. The routes are kept in
/// the order in which they were first inserted.
#[derive(Debug)]
pub struct RouteSet {
    routes: Vec<RequiredRoute>,
}

impl View for RouteSet {
    type V = Seq<RequiredRouteView>;

    closed spec fn view(&self) -> Seq<RequiredRouteView> {
        self.routes@.map_values(|route: RequiredRoute| route@)
    }
}

impl RouteSet {
    #[verifier::type_invariant]
    spec fn distinct(self) -> bool {
        self@.no_duplicates()
    }

    /// The routes as a mathematical set.
    pub open spec fn as_set(&self) -> Set<RequiredRouteView> {
        self@.to_set()
    }

    /// The empty set.
    pub fn new() -> (set: RouteSet)
        ensures
            set@ == Seq::<RequiredRouteView>::empty(),
    {
        let set = RouteSet { routes: Vec::new() };
        assert(set@ =~= Seq::<RequiredRouteView>::empty());
        set
    }

    /// The number of routes in the set.
    pub fn len(&self) -> (count: usize)
        ensures
            count == self@.len(),
            self@.no_duplicates(),
    {
        proof {
            use_type_invariant(self);
        }
        self.routes.len()
    }

    /// The route at a position below `len()`.
    pub fn get(&self, index: usize) -> (route: &RequiredRoute)
        requires
            index < self@.len(),
        ensures
            route@ == self@[index as int],
    {
        &self.routes[index]
    }

    /// Whether the set holds a route equal to the given one.
    pub fn contains(&self, route: &RequiredRoute) -> (found: bool)
        ensures
            found == self@.contains(route@),
    {
        let mut i: usize = 0;
        while i < self.routes.len()
            invariant
                i <= self.routes.len(),
                forall|k: int| 0 <= k < i ==> self@[k] != route@,
            decreases self.routes.len() - i,
        {
            if self.routes[i].same(route) {
                assert(self@[i as int] == route@);
                return true;
            }
            i += 1;
        }
        false
    }

    /// Adds a route unless an equal one is already there, and says whether
    /// it was added.
    pub fn insert(&mut self, route: RequiredRoute) -> (inserted: bool)
        ensures
            inserted == !old(self)@.contains(route@),
            inserted ==> final(self)@ == old(self)@.push(route@),
            !inserted ==> final(self)@ == old(self)@,
            final(self)@.contains(route@),
            final(self)@.no_duplicates(),
    {
        proof {
            use_type_invariant(&*self);
        }
        if self.contains(&route) {
            false
        } else {
            let ghost added = route@;
            let ghost before = self@;
            let mut taken = RouteSet { routes: Vec::new() };
            assert(taken@ =~= Seq::<RequiredRouteView>::empty());
            core::mem::swap(self, &mut taken);
            let mut routes = taken.routes;
            assert(routes@.map_values(|r: RequiredRoute| r@) == before);
            routes.push(route);
            proof {
                let after = routes@.map_values(|r: RequiredRoute| r@);
                assert(after =~= before.push(route@));
                assert forall|i: int, j: int|
                    0 <= i < after.len() && 0 <= j < after.len() && i != j implies after[i]
                    != after[j] by {
                    if i < before.len() && j < before.len() {
                        assert(before[i] != before[j]);
                    } else if i < before.len() {
                        assert(before.contains(before[i]));
                    } else {
                        assert(before.contains(before[j]));
                    }
                }
            }
            *self = RouteSet { routes };
            assert(self@[before.len() as int] == added);
            true
        }
    }
}

} // verus!
