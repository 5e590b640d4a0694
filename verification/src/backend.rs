//! The routes as the routing backend takes them, and the translation of
//! required routes into them.

use vstd::prelude::*;
use crate::route::{
    clone_name, name_view, IpAddress, IpNetwork, NetNode, NetNodeView, Node, NodeView,
    RequiredRoute, RequiredRouteView, RouteSet,
};

verus! {

/// The backend's next-hop descriptor.
#[derive(Clone, Debug, PartialEq, Eq, Hash)]
pub struct BackendNode {
    pub gateway: Option<IpAddress>,
    pub device_name: Option<String>,
}

pub ghost struct BackendNodeView {
    pub gateway: Option<IpAddress>,
    pub device_name: Option<Seq<char>>,
}

impl View for BackendNode {
    type V = BackendNodeView;

    open spec fn view(&self) -> BackendNodeView {
        BackendNodeView { gateway: self.gateway, device_name: name_view(self.device_name) }
    }
}

/// One route of a bulk apply. Without a node the backend routes the network
/// through the system's default gateway.
#[derive(Clone, Debug, PartialEq, Eq, Hash)]
pub struct BackendRoute {
    pub network: IpNetwork,
    pub node: Option<BackendNode>,
}

pub ghost struct BackendRouteView {
    pub network: IpNetwork,
    pub node: Option<BackendNodeView>,
}

impl View for BackendRoute {
    type V = BackendRouteView;

    open spec fn view(&self) -> BackendRouteView {
        BackendRouteView {
            network: self.network,
            node: match self.node {
                Some(node) => Some(node@),
                None => None,
            },
        }
    }
}

/// The backend's descriptor of an explicit next hop.
pub open spec fn translated_node(node: NodeView) -> BackendNodeView {
    BackendNodeView { gateway: node.address, device_name: node.interface }
}

/// The backend's route for a required route: the same network, through the
/// default gateway or through the explicit next hop.
pub open spec fn translated(route: RequiredRouteView) -> BackendRouteView {
    BackendRouteView {
        network: route.destination,
        node: match route.via {
            NetNodeView::DefaultNode => None,
            NetNodeView::RealNode(node) => Some(translated_node(node)),
        },
    }
}

/// The bulk apply for a set of required routes: one backend route for each,
/// in the set's order.
pub open spec fn translated_all(routes: Seq<RequiredRouteView>) -> Seq<BackendRouteView> {
    routes.map_values(|route: RequiredRouteView| translated(route))
}

/// The views of a list of backend routes.
pub open spec fn backend_views(routes: Seq<BackendRoute>) -> Seq<BackendRouteView> {
    routes.map_values(|route: BackendRoute| route@)
}

impl BackendNode {
    /// Translates an explicit next hop.
    pub fn from_node(node: &Node) -> (descriptor: BackendNode)
        ensures
            descriptor@ == translated_node(node@),
    {
        BackendNode { gateway: node.address, device_name: clone_name(&node.interface) }
    }
}

impl BackendRoute {
    /// A route for the network through the system's default gateway.
    pub fn through_default_node(network: IpNetwork) -> (route: BackendRoute)
        ensures
            route@ == (BackendRouteView { network, node: None }),
    {
        BackendRoute { network, node: None }
    }

    /// A route for the network through the given next hop.
    pub fn new(node: BackendNode, network: IpNetwork) -> (route: BackendRoute)
        ensures
            route@ == (BackendRouteView { network, node: Some(node@) }),
    {
        BackendRoute { network, node: Some(node) }
    }

    /// Translates one required route.
    pub fn translate(route: &RequiredRoute) -> (backend_route: BackendRoute)
        ensures
            backend_route@ == translated(route@),
    {
        match &route.via {
            NetNode::DefaultNode => BackendRoute::through_default_node(route.destination),
            NetNode::RealNode(node) => BackendRoute::new(
                BackendNode::from_node(node),
                route.destination,
            ),
        }
    }

    /// Translates a set of required routes into one bulk apply.
    pub fn translate_all(routes: &RouteSet) -> (backend_routes: Vec<BackendRoute>)
        ensures
            backend_routes@.len() == routes@.len(),
            backend_views(backend_routes@) == translated_all(routes@),
    {
        let mut backend_routes: Vec<BackendRoute> = Vec::new();
        let count: usize = routes.len();
        let mut i: usize = 0;
        while i < count
            invariant
                i <= count,
                count == routes@.len(),
                backend_routes@.len() == i,
                forall|k: int| 0 <= k < i ==> (#[trigger] backend_routes@[k])@ == translated(routes@[k]),
            decreases count - i,
        {
            let backend_route = BackendRoute::translate(routes.get(i));
            backend_routes.push(backend_route);
            i += 1;
        }
        assert(backend_views(backend_routes@) =~= translated_all(routes@));
        backend_routes
    }
}

} // verus!
