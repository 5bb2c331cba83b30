//! The Service of a bot.

use crate::common::config::AppConfig;
use crate::common::content::{push_item, Content};
use crate::common::string_map::Labels;
use crate::common::text::{owned, str_eq};
use crate::controller::drift::protocol_of;
use crate::controller::labels::{identifying_labels, make_identifying_labels, make_managed_meta, managed_meta};
use crate::controller::traits::{FromHub, ResourceDrift};
use crate::crd::hub::bot::{has_api_port, is_api_port, Bot, BotServicePort};
use crate::objects::{
    IntOrString, IntOrStringView, OwnerReference, OwnerReferenceView, Service, ServicePort,
    ServicePortView, ServiceSpec, ServiceSpecView, ServiceView,
};
use vstd::prelude::*;

verus! {

/// The Service port for a declared port: the target is given by name.
pub open spec fn service_port_of(port: BotServicePort) -> ServicePortView {
    ServicePortView {
        name: Some(port.name@),
        port: port.port as i32,
        target_port: Some(IntOrStringView::String(port.target_port@)),
        protocol: None,
    }
}

/// The port named `api` that the operator adds.
pub open spec fn api_service_port(api_port: u16) -> ServicePortView {
    ServicePortView {
        name: Some("api"@),
        port: api_port as i32,
        target_port: Some(IntOrStringView::String("api"@)),
        protocol: None,
    }
}

/// The ports of the Service: the declared ports in their order; with the
/// API enabled and no declared port named `api`, a port named `api` for the
/// API port is added at the end.
pub open spec fn service_ports_of(bot: &Bot) -> Seq<ServicePortView> {
    let declared = bot.spec.service.ports@.map_values(|p: BotServicePort| service_port_of(p));
    if bot.spec.api.enabled && !has_api_port(bot.spec.service.ports@) {
        declared.push(api_service_port(bot.spec.api.port))
    } else {
        declared
    }
}

/// The Service that a bot projects to. It selects the pods by the three
/// identifying labels.
pub open spec fn service_of(
    bot: &Bot,
    name: Seq<char>,
    namespace: Seq<char>,
    owner_ref: OwnerReferenceView,
) -> ServiceView {
    ServiceView {
        metadata: managed_meta(
            name,
            namespace,
            owner_ref,
            bot.spec.service.annotations.deep_view(),
            bot.spec.service.labels.deep_view(),
        ),
        spec: Some(
            ServiceSpecView {
                type_: Some(bot.spec.service.service_type@),
                selector: Some(identifying_labels(name)),
                ports: Some(service_ports_of(bot)),
            },
        ),
    }
}

/// Builds the ports of the Service.
fn make_service_ports(bot: &Bot) -> (r: Vec<ServicePort>)
    ensures
        r.deep_view() == service_ports_of(bot),
{
    let declared = &bot.spec.service.ports;
    let ghost mapped = declared@.map_values(|p: BotServicePort| service_port_of(p));
    let mut ports: Vec<ServicePort> = Vec::new();
    assert(ports.deep_view() =~= mapped.take(0));
    let mut found = false;
    let mut i: usize = 0;
    while i < declared.len()
        invariant
            i <= declared.len(),
            declared == &bot.spec.service.ports,
            mapped == declared@.map_values(|p: BotServicePort| service_port_of(p)),
            ports.deep_view() == mapped.take(i as int),
            found == has_api_port(declared@.take(i as int)),
        decreases declared.len() - i,
    {
        let port = &declared[i];
        let named = str_eq(port.name.as_str(), "api");
        proof {
            let before = declared@.take(i as int);
            let after = declared@.take(i + 1);
            assert(after[i as int] == declared@[i as int]);
            if has_api_port(before) {
                let j = choose|j: int| 0 <= j < before.len() && is_api_port(#[trigger] before[j]);
                assert(is_api_port(after[j]));
            }
            if has_api_port(after) {
                let j = choose|j: int| 0 <= j < after.len() && is_api_port(#[trigger] after[j]);
                if j < i {
                    assert(is_api_port(before[j]));
                }
            }
        }
        if named {
            found = true;
        }
        push_item(
            &mut ports,
            ServicePort {
                name: Some(port.name.clone()),
                port: port.port as i32,
                target_port: Some(IntOrString::String(port.target_port.clone())),
                protocol: None,
            },
        );
        assert(ports.deep_view() =~= mapped.take(i + 1));
        i += 1;
    }
    assert(declared@.take(i as int) =~= declared@);
    assert(mapped.take(i as int) =~= mapped);
    if bot.spec.api.enabled && !found {
        push_item(
            &mut ports,
            ServicePort {
                name: Some(owned("api")),
                port: bot.spec.api.port as i32,
                target_port: Some(IntOrString::String(owned("api"))),
                protocol: None,
            },
        );
    }
    ports
}

impl FromHub<Bot> for Service {
    open spec fn is_projection(
        hub: &Bot,
        name: Seq<char>,
        namespace: Seq<char>,
        owner_ref: OwnerReferenceView,
        config: &AppConfig,
        object: ServiceView,
    ) -> bool {
        object == service_of(hub, name, namespace, owner_ref)
    }

    /// Projects a bot onto its Service.
    fn from_hub(bot: &Bot, name: &str, namespace: &str, owner_ref: OwnerReference, _config: &AppConfig) -> (r:
        Self) {
        Service {
            metadata: make_managed_meta(
                name,
                namespace,
                owner_ref,
                &bot.spec.service.annotations,
                &bot.spec.service.labels,
            ),
            spec: Some(
                ServiceSpec {
                    type_: Some(bot.spec.service.service_type.clone()),
                    selector: Some(make_identifying_labels(name)),
                    ports: Some(make_service_ports(bot)),
                },
            ),
        }
    }
}

/// The type of a Service.
pub open spec fn service_type_of(s: ServiceView) -> Option<Seq<char>> {
    match s.spec {
        Some(spec) => spec.type_,
        None => None,
    }
}

/// The selector of a Service.
pub open spec fn service_selector_of(s: ServiceView) -> Option<Labels> {
    match s.spec {
        Some(spec) => spec.selector,
        None => None,
    }
}

/// The ports of a Service; none where it lists none.
pub open spec fn service_port_list(s: ServiceView) -> Seq<ServicePortView> {
    match s.spec {
        Some(spec) => match spec.ports {
            Some(ports) => ports,
            None => Seq::empty(),
        },
        None => Seq::empty(),
    }
}

/// Whether two Service ports differ in number, name, target or protocol.
pub open spec fn service_port_differs(a: ServicePortView, b: ServicePortView) -> bool {
    a.port != b.port || a.name != b.name || a.target_port != b.target_port || protocol_of(a.protocol)
        != protocol_of(b.protocol)
}

/// Whether a Service has drifted: the type or the selector differs, or the
/// port lists differ in length, or two ports at the same place differ.
pub open spec fn service_drifted(observed: ServiceView, desired: ServiceView) -> bool {
    ||| service_type_of(observed) != service_type_of(desired)
    ||| service_selector_of(observed) != service_selector_of(desired)
    ||| service_port_list(observed).len() != service_port_list(desired).len()
    ||| exists|i: int|
        0 <= i < service_port_list(observed).len() && i < service_port_list(desired).len()
            && service_port_differs(#[trigger] service_port_list(observed)[i], service_port_list(desired)[i])
}

/// The ports that a Service lists, if any.
fn ports_of_service(s: &Service) -> (r: Option<&Vec<ServicePort>>)
    ensures
        service_port_list(s.deep_view()) == (match r.deep_view() {
            Some(p) => p,
            None => Seq::empty(),
        }),
{
    match &s.spec {
        Some(spec) => spec.ports.as_ref(),
        None => None,
    }
}

impl ResourceDrift<Bot> for Service {
    open spec fn drifted(observed: ServiceView, desired: ServiceView) -> bool {
        service_drifted(observed, desired)
    }

    /// Whether the stored Service has drifted from the projected one.
    fn has_drifted(&self, other: &Self) -> (r: bool) {
        let type_differs = match (&self.spec, &other.spec) {
            (Some(a), Some(b)) => !a.type_.same(&b.type_),
            (Some(a), None) => a.type_.is_some(),
            (None, Some(b)) => b.type_.is_some(),
            (None, None) => false,
        };
        if type_differs {
            return true;
        }
        let selector_differs = match (&self.spec, &other.spec) {
            (Some(a), Some(b)) => !a.selector.same(&b.selector),
            (Some(a), None) => a.selector.is_some(),
            (None, Some(b)) => b.selector.is_some(),
            (None, None) => false,
        };
        if selector_differs {
            return true;
        }
        let empty: Vec<ServicePort> = Vec::new();
        assert(empty.deep_view() =~= Seq::empty());
        let a = match ports_of_service(self) {
            Some(p) => p,
            None => &empty,
        };
        let b = match ports_of_service(other) {
            Some(p) => p,
            None => &empty,
        };
        let ghost av = service_port_list(self.deep_view());
        let ghost bv = service_port_list(other.deep_view());
        if a.len() != b.len() {
            assert(av.len() != bv.len());
            return true;
        }
        let mut i: usize = 0;
        while i < a.len()
            invariant
                i <= a.len(),
                a.len() == b.len(),
                av == a.deep_view(),
                bv == b.deep_view(),
                av == service_port_list(self.deep_view()),
                bv == service_port_list(other.deep_view()),
                service_type_of(self.deep_view()) == service_type_of(other.deep_view()),
                service_selector_of(self.deep_view()) == service_selector_of(other.deep_view()),
                forall|j: int| 0 <= j < i ==> !service_port_differs(#[trigger] av[j], bv[j]),
            decreases a.len() - i,
        {
            let x = &a[i];
            let y = &b[i];
            let protocols_differ = !str_eq(
                match &x.protocol {
                    Some(p) => p.as_str(),
                    None => "TCP",
                },
                match &y.protocol {
                    Some(p) => p.as_str(),
                    None => "TCP",
                },
            );
            if x.port != y.port || !x.name.same(&y.name) || !x.target_port.same(&y.target_port)
                || protocols_differ {
                assert(service_port_differs(av[i as int], bv[i as int]));
                return true;
            }
            i += 1;
        }
        false
    }
}

} // verus!
