//! The schema of the `Cluster` resource, as far as it is about the components
//! of a TiDB cluster. Their configuration is free, so the fields for it must
//! keep what they do not know.
use crate::text::{same_text, TextMap};
use vstd::prelude::*;

verus! {

/// The schema of a field that keeps whatever is written into it, as JSON.
pub const FREE_FIELD: &'static str = "{\"x-kubernetes-preserve-unknown-fields\":true}";

/// What the schema of a component says of its items.
#[derive(Debug)]
pub enum Items {
    /// Nothing.
    Unset,
    /// They all have one schema, with these properties, each with its schema as
    /// JSON.
    One { properties: Option<TextMap<String>> },
    /// Each has its own schema.
    Several,
}

/// What `Items` hold.
#[verifier::ext_equal]
pub enum ItemsView {
    Unset,
    One { properties: Option<Map<Seq<char>, Seq<char>>> },
    Several,
}

impl DeepView for Items {
    type V = ItemsView;

    open spec fn deep_view(&self) -> ItemsView {
        match self {
            Items::Unset => ItemsView::Unset,
            Items::One { properties } => ItemsView::One { properties: properties.deep_view() },
            Items::Several => ItemsView::Several,
        }
    }
}

/// The schema of a component: its properties, each with its schema as JSON, and
/// its items.
#[derive(Debug)]
pub struct Component {
    pub properties: Option<TextMap<String>>,
    pub items: Items,
}

/// What a `Component` holds.
#[verifier::ext_equal]
pub struct ComponentView {
    pub properties: Option<Map<Seq<char>, Seq<char>>>,
    pub items: ItemsView,
}

impl DeepView for Component {
    type V = ComponentView;

    open spec fn deep_view(&self) -> ComponentView {
        ComponentView {
            properties: self.properties.deep_view(),
            items: self.items.deep_view(),
        }
    }
}

/// Properties with one that keeps whatever is written into it.
pub open spec fn with_free_field(
    properties: Option<Map<Seq<char>, Seq<char>>>,
    name: Seq<char>,
) -> Option<Map<Seq<char>, Seq<char>>> {
    let given = match properties {
        Some(properties) => properties,
        None => Map::empty(),
    };
    Some(given.insert(name, FREE_FIELD@))
}

/// A component with one configuration.
pub open spec fn configured(name: Seq<char>) -> bool {
    ||| name == "pd"@
    ||| name == "pump"@
    ||| name == "ticdc"@
    ||| name == "tidb"@
    ||| name == "tikv"@
    ||| name == "tiproxy"@
}

/// The schema of a component, with its configuration made free.
pub open spec fn freed(name: Seq<char>, component: ComponentView) -> ComponentView {
    if configured(name) {
        ComponentView {
            properties: with_free_field(component.properties, "config"@),
            ..component
        }
    } else if name == "tiflash"@ {
        ComponentView {
            properties: with_free_field(
                with_free_field(component.properties, "config"@),
                "proxy"@,
            ),
            ..component
        }
    } else if name == "pdms"@ {
        ComponentView {
            items: match component.items {
                ItemsView::Unset => ItemsView::One {
                    properties: with_free_field(None, "config"@),
                },
                ItemsView::One { properties } => ItemsView::One {
                    properties: with_free_field(properties, "config"@),
                },
                ItemsView::Several => ItemsView::Several,
            },
            ..component
        }
    } else {
        component
    }
}

/// The schemas of all components, with their configurations made free.
pub open spec fn all_freed(
    components: Map<Seq<char>, ComponentView>,
) -> Map<Seq<char>, ComponentView> {
    Map::new(
        |name: Seq<char>| components.contains_key(name),
        |name: Seq<char>| freed(name, components[name]),
    )
}

fn copy_properties(properties: &Option<TextMap<String>>) -> (r: Option<TextMap<String>>)
    ensures
        r.deep_view() == properties.deep_view(),
{
    match properties {
        Some(properties) => Some(properties.clone()),
        None => None,
    }
}

/// Adds a property that keeps whatever is written into it.
fn add_free_field(properties: Option<TextMap<String>>, name: &str) -> (r: Option<TextMap<String>>)
    ensures
        r.deep_view() == with_free_field(properties.deep_view(), name@),
{
    let given = match properties {
        Some(properties) => properties,
        None => TextMap::new(),
    };
    Some(given.with(name, FREE_FIELD.to_string()))
}

impl Clone for Items {
    fn clone(&self) -> (r: Items)
        ensures
            r.deep_view() == self.deep_view(),
    {
        match self {
            Items::Unset => Items::Unset,
            Items::One { properties } => Items::One { properties: copy_properties(properties) },
            Items::Several => Items::Several,
        }
    }
}

/// Makes the configuration of a component free.
pub fn free_component(name: &str, component: &Component) -> (r: Component)
    ensures
        r.deep_view() == freed(name@, component.deep_view()),
{
    let properties = copy_properties(&component.properties);
    let items = component.items.clone();
    if same_text(name, "pd") || same_text(name, "pump") || same_text(name, "ticdc") || same_text(
        name,
        "tidb",
    ) || same_text(name, "tikv") || same_text(name, "tiproxy") {
        Component { properties: add_free_field(properties, "config"), items }
    } else if same_text(name, "tiflash") {
        let with_config = add_free_field(properties, "config");
        Component { properties: add_free_field(with_config, "proxy"), items }
    } else if same_text(name, "pdms") {
        let items = match items {
            Items::Unset => Items::One { properties: add_free_field(None, "config") },
            Items::One { properties } => Items::One {
                properties: add_free_field(properties, "config"),
            },
            Items::Several => Items::Several,
        };
        Component { properties, items }
    } else {
        Component { properties, items }
    }
}

/// Makes the configurations of all components free.
pub fn free_components(components: &TextMap<Component>) -> (r: TextMap<Component>)
    ensures
        r.deep_view() == all_freed(components.deep_view()),
{
    let mut r: TextMap<Component> = TextMap::new();
    let n = components.len();
    let ghost given = components.deep_view();
    let ghost keys = components.keys();
    let mut i: usize = 0;
    while i < n
        invariant
            i <= n,
            n == keys.len(),
            keys == components.keys(),
            given == components.deep_view(),
            forall|name: Seq<char>|
                keys.contains(name) <==> #[trigger] given.contains_key(name),
            forall|name: Seq<char>|
                #[trigger] r.deep_view().contains_key(name) <==> keys.take(i as int).contains(name),
            forall|name: Seq<char>|
                #[trigger] r.deep_view().contains_key(name) ==> r.deep_view()[name] == freed(
                    name,
                    given[name],
                ),
        decreases n - i,
    {
        let (name, component) = components.entry(i);
        let ghost before = r.deep_view();
        r = r.with(name.as_str(), free_component(name.as_str(), component));
        proof {
            let taken = keys.take(i as int);
            let more = keys.take(i + 1);
            assert(more =~= taken.push(name@));
            assert forall|other: Seq<char>|
                #[trigger] r.deep_view().contains_key(other) <==> more.contains(other) by {
                if taken.contains(other) {
                    let k = choose|k: int| 0 <= k < taken.len() && taken[k] == other;
                    assert(more[k] == other);
                }
                if more.contains(other) && other != name@ {
                    let k = choose|k: int| 0 <= k < more.len() && more[k] == other;
                    assert(taken[k] == other);
                }
                if other == name@ {
                    assert(more[i as int] == other);
                }
                assert(before.contains_key(other) <==> taken.contains(other));
            }
        }
        i += 1;
    }
    proof {
        assert(keys.take(n as int) =~= keys);
        assert(r.deep_view() =~= all_freed(given));
    }
    r
}

/// Properties keep what they have, but for a field that is free from now on.
pub open spec fn opens_field(
    before: Option<Map<Seq<char>, Seq<char>>>,
    after: Option<Map<Seq<char>, Seq<char>>>,
    field: Seq<char>,
) -> bool {
    let free = "{\"x-kubernetes-preserve-unknown-fields\":true}"@;
    &&& after matches Some(properties)
    &&& properties == (if before is Some {
        before->0.insert(field, free)
    } else {
        map![field => free]
    })
}

/// Which parts of the schema become free: the configuration of each of the
/// components that have one, that of the proxy of TiFlash too, and that of every
/// microservice of the placement driver. All else stays as it is.
pub proof fn law_what_becomes_free(name: Seq<char>, component: ComponentView)
    ensures
        ({
            let after = freed(name, component);
            let one = name == "pd"@ || name == "pump"@ || name == "ticdc"@ || name == "tidb"@
                || name == "tikv"@ || name == "tiproxy"@;
            &&& one ==> opens_field(component.properties, after.properties, "config"@)
            &&& one ==> after.items == component.items
            &&& name == "tiflash"@ ==> after.items == component.items && after.properties is Some
            &&& name == "tiflash"@ ==> opens_field(
                Some(after.properties->0.remove("proxy"@)),
                after.properties,
                "proxy"@,
            )
            &&& name == "tiflash"@ ==> opens_field(
                match component.properties {
                    Some(properties) => Some(properties.remove("proxy"@)),
                    None => None,
                },
                Some(after.properties->0.remove("proxy"@)),
                "config"@,
            )
            &&& name == "pdms"@ ==> after.properties == component.properties
            &&& name == "pdms"@ ==> match (component.items, after.items) {
                (ItemsView::Several, ItemsView::Several) => true,
                (ItemsView::Unset, ItemsView::One { properties }) => opens_field(
                    None,
                    properties,
                    "config"@,
                ),
                (ItemsView::One { properties: p }, ItemsView::One { properties: q }) => opens_field(
                    p,
                    q,
                    "config"@,
                ),
                _ => false,
            }
            &&& !one && name != "tiflash"@ && name != "pdms"@ ==> after == component
        }),
{
    reveal_strlit("config");
    reveal_strlit("proxy");
    reveal_strlit("tiflash");
    reveal_strlit("pdms");
    reveal_strlit("pd");
    reveal_strlit("pump");
    reveal_strlit("ticdc");
    reveal_strlit("tidb");
    reveal_strlit("tikv");
    reveal_strlit("tiproxy");
    assert("config"@.len() != "proxy"@.len());
    assert("pdms"@[1] != "pump"@[1]);
    assert("pdms"@[0] != "tidb"@[0]);
    assert("pdms"@[0] != "tikv"@[0]);
    assert("tiflash"@[2] != "tiproxy"@[2]);
    assert("pdms"@.len() == 4 && "tiflash"@.len() == 7 && "pd"@.len() == 2 && "ticdc"@.len() == 5);
    if name == "tiflash"@ {
        let free = FREE_FIELD@;
        let properties = freed(name, component).properties->0;
        let given = if component.properties is Some {
            component.properties->0
        } else {
            Map::empty()
        };
        assert(properties == given.insert("config"@, free).insert("proxy"@, free));
        assert(properties =~= properties.remove("proxy"@).insert("proxy"@, free));
        if component.properties is Some {
            assert(properties.remove("proxy"@) =~= given.remove("proxy"@).insert("config"@, free));
        } else {
            assert(properties.remove("proxy"@) =~= map!["config"@ => free]);
        }
    }
}

/// Every component is treated by its name, and none is lost.
pub proof fn law_every_component_is_freed(
    components: Map<Seq<char>, ComponentView>,
    name: Seq<char>,
)
    ensures
        all_freed(components).contains_key(name) <==> components.contains_key(name),
        components.contains_key(name) ==> all_freed(components)[name] == freed(
            name,
            components[name],
        ),
{
}

/// Whatever is written into the configuration of a component is kept, and no
/// other part of its schema changes. A second time changes nothing more.
pub proof fn law_configurations_are_free(name: Seq<char>, component: ComponentView)
    ensures
        configured(name) || name == "tiflash"@ ==> freed(name, component).properties->0["config"@]
            == FREE_FIELD@,
        name == "tiflash"@ ==> freed(name, component).properties->0["proxy"@] == FREE_FIELD@,
        name == "pdms"@ && !(component.items is Several) ==> freed(name, component).items is One
            && freed(name, component).items->One_properties->0["config"@] == FREE_FIELD@,
        forall|field: Seq<char>|
            component.properties is Some && field != "config"@ && field != "proxy"@
                && component.properties->0.contains_key(field) ==> freed(
                name,
                component,
            ).properties->0.contains_key(field) && #[trigger] freed(
                name,
                component,
            ).properties->0[field] == component.properties->0[field],
        freed(name, freed(name, component)) == freed(name, component),
{
    reveal_strlit("config");
    reveal_strlit("proxy");
    reveal_strlit("tiflash");
    reveal_strlit("pdms");
    reveal_strlit("pd");
    reveal_strlit("pump");
    reveal_strlit("ticdc");
    reveal_strlit("tidb");
    reveal_strlit("tikv");
    reveal_strlit("tiproxy");
    assert("config"@.len() != "proxy"@.len());
    assert("pdms"@[1] != "pump"@[1]);
    assert("pdms"@[0] != "tidb"@[0]);
    assert("pdms"@[0] != "tikv"@[0]);
    assert(!configured("pdms"@)) by {
        assert("pdms"@.len() == 4);
    }
    assert("tiflash"@.len() == 7 && "tiflash"@[2] != "tiproxy"@[2]);
    let once = freed(name, component);
    assert(freed(name, once) =~= once);
}

/// The view of an `Items` shows all that it holds.
pub proof fn law_view_shows_items(x: &Items)
    ensures
        match x {
            Items::Unset => x.deep_view() == (ItemsView::Unset),
            Items::One { properties } => x.deep_view() == (
            ItemsView::One { properties: properties.deep_view() }),
            Items::Several => x.deep_view() == (ItemsView::Several),
        },
{
}

/// The view of a `Component` shows all that it holds.
pub proof fn law_view_shows_component(x: Component)
    ensures
        x.deep_view().properties == x.properties.deep_view(),
        x.deep_view().items == x.items.deep_view(),
{
}

} // verus!
