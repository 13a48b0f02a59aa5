//! The editor's `pnpid` entries are Windows PNP ids (`USB\VID_2341&PID_0043`), rebuilt here from
//! the vendor and product ids that arduino-cli reports.

use vstd::prelude::*;

use crate::outside;
use crate::outside::uppercase;
use crate::server::protocol;
use crate::server::protocol::{ConnectionTarget, ConnectionTargetView};
use crate::service::arduino::grpc::Instance;
use crate::strmap::StrMap;
use crate::text;
use crate::text::{cat4, eq_ignore_ascii_case, strip_prefix};

verus! {

/// How long the daemon may look for boards.
pub const BOARD_LIST_TIMEOUT_MS: i64 = 1000;

/// What the daemon is asked to list.
pub struct BoardListRequest {
    pub instance: Option<Instance>,
    pub timeout: i64,
    pub fqbn: String,
    pub skip_cloud_api_for_board_detection: bool,
}

/// Builds the `BoardListRequest`: every port, with no cloud lookup.
pub fn build_board_list_request(instance: Instance) -> (req: BoardListRequest)
    ensures
        req.instance == Some(instance),
        req.timeout == BOARD_LIST_TIMEOUT_MS,
        req.timeout == 1000,
        req.fqbn@ == Seq::<char>::empty(),
        req.skip_cloud_api_for_board_detection,
{
    BoardListRequest {
        instance: Some(instance),
        timeout: BOARD_LIST_TIMEOUT_MS,
        fqbn: String::new(),
        skip_cloud_api_for_board_detection: true,
    }
}

/// A port that the daemon knows.
pub struct Port {
    pub address: String,
    pub label: String,
    pub properties: StrMap<String>,
}

/// A board that the daemon recognizes at a port.
pub struct Board {
    pub name: String,
}

/// A port that the daemon found something at.
pub struct DetectedPort {
    pub port: Option<Port>,
    pub matching_boards: Vec<Board>,
}

/// A hexadecimal id without its `0x`, in upper case.
pub open spec fn normalized(raw: Seq<char>) -> Seq<char> {
    outside::upper(
        match text::without_prefix(raw, "0x"@) {
            Some(rest) => rest,
            None => match text::without_prefix(raw, "0X"@) {
                Some(rest) => rest,
                None => raw,
            },
        },
    )
}

/// Takes the `0x` off a hexadecimal id and puts it into upper case.
pub fn normalize_hex_id(raw: &str) -> (id: String)
    ensures
        id@ == normalized(raw@),
{
    match strip_prefix(raw, "0x") {
        Some(rest) => uppercase(rest.as_str()),
        None => match strip_prefix(raw, "0X") {
            Some(rest) => uppercase(rest.as_str()),
            None => uppercase(raw),
        },
    }
}

/// The PNP id of a port, if the port is a USB device with a vendor and a product id.
pub open spec fn pnp_id(port: Port) -> Option<Seq<char>> {
    if port.properties@.contains_key("vid"@) && port.properties@.contains_key("pid"@) {
        Some(
            "USB\\VID_"@ + normalized(port.properties@["vid"@]@) + "&PID_"@ + normalized(
                port.properties@["pid"@]@,
            ),
        )
    } else {
        None
    }
}

/// The PNP id of a port, if the port is a USB device with a vendor and a product id.
pub fn port_pnp_id(port: &Port) -> (id: Option<String>)
    ensures
        text::opt_text(id) == pnp_id(*port),
{
    match port.properties.get("vid") {
        None => None,
        Some(vid) => match port.properties.get("pid") {
            None => None,
            Some(pid) => Some(
                cat4(
                    "USB\\VID_",
                    normalize_hex_id(vid.as_str()).as_str(),
                    "&PID_",
                    normalize_hex_id(pid.as_str()).as_str(),
                ),
            ),
        },
    }
}

/// What to call a detected port: the first board's name, else the port's label, else its address.
pub open spec fn label_of(detected: DetectedPort, port: Port) -> Seq<char> {
    if detected.matching_boards@.len() > 0 && detected.matching_boards@[0].name@.len() > 0 {
        detected.matching_boards@[0].name@
    } else if port.label@.len() > 0 {
        port.label@
    } else {
        port.address@
    }
}

/// What to call a detected port: the first board's name, else the port's label, else its address.
pub fn port_label(detected: &DetectedPort, port: &Port) -> (label: String)
    ensures
        label@ == label_of(*detected, *port),
{
    if detected.matching_boards.len() > 0 && !detected.matching_boards[0].name.as_str().is_empty() {
        return detected.matching_boards[0].name.clone();
    }
    if !port.label.as_str().is_empty() {
        return port.label.clone();
    }
    port.address.clone()
}

/// Whether a board with a PNP id is at the port.
pub open spec fn is_board_port(detected: DetectedPort) -> bool {
    detected.port is Some && pnp_id(detected.port->0) is Some
}

/// Counts the ports that a board with a PNP id is at.
pub fn count_board_ports(ports: &[DetectedPort]) -> (n: usize)
    ensures
        n == ports@.filter(|d: DetectedPort| is_board_port(d)).len(),
{
    let ghost wanted = |d: DetectedPort| is_board_port(d);
    let mut n: usize = 0;
    let mut i: usize = 0;
    assert(ports@.take(0).filter(wanted).len() == 0) by {
        reveal(Seq::filter);
    }
    while i < ports.len()
        invariant
            i <= ports.len(),
            wanted == (|d: DetectedPort| is_board_port(d)),
            n == ports@.take(i as int).filter(wanted).len(),
            n <= i,
        decreases ports.len() - i,
    {
        assert(ports@.take(i + 1).drop_last() =~= ports@.take(i as int));
        assert(ports@.take(i + 1).filter(wanted).len() == n + if is_board_port(ports@[i as int]) {
            1int
        } else {
            0int
        }) by {
            reveal(Seq::filter);
        }
        if let Some(port) = &ports[i].port {
            if port_pnp_id(port).is_some() {
                n += 1;
            }
        }
        i += 1;
    }
    assert(ports@.take(ports@.len() as int) =~= ports@);
    n
}

/// Whether some entry of `pnpid` is `id`, ASCII case put aside.
pub open spec fn wanted(pnpid: Seq<Seq<char>>, id: Seq<char>) -> bool {
    exists|i: int| 0 <= i < pnpid.len() && text::same_but_ascii_case(#[trigger] pnpid[i], id)
}

/// Whether some entry of `pnpid` is `id`, ASCII case put aside.
fn is_wanted(pnpid: &[String], id: &str) -> (r: bool)
    ensures
        r == wanted(text::texts(pnpid@), id@),
{
    let mut i: usize = 0;
    while i < pnpid.len()
        invariant
            i <= pnpid.len(),
            forall|j: int| 0 <= j < i ==> !text::same_but_ascii_case(#[trigger] text::texts(pnpid@)[j], id@),
        decreases pnpid.len() - i,
    {
        if eq_ignore_ascii_case(pnpid[i].as_str(), id) {
            assert(text::same_but_ascii_case(text::texts(pnpid@)[i as int], id@));
            return true;
        }
        i += 1;
    }
    false
}

/// The target that a detected port is, if it is a board that the editor asked for.
pub open spec fn target_of(detected: DetectedPort, pnpid: Seq<Seq<char>>) -> Option<ConnectionTargetView> {
    if is_board_port(detected) && wanted(pnpid, pnp_id(detected.port->0)->0) {
        Some(
            ConnectionTargetView {
                port: detected.port->0.address@,
                label: label_of(detected, detected.port->0),
            },
        )
    } else {
        None
    }
}

/// The targets among the detected ports, in their order.
pub open spec fn targets_of(ports: Seq<DetectedPort>, pnpid: Seq<Seq<char>>) -> Seq<ConnectionTargetView>
    decreases ports.len(),
{
    if ports.len() == 0 {
        seq![]
    } else {
        let earlier = targets_of(ports.drop_last(), pnpid);
        match target_of(ports.last(), pnpid) {
            Some(target) => earlier.push(target),
            None => earlier,
        }
    }
}

/// Picks the boards that the editor asked for out of the detected ports.
pub fn detected_ports_to_targets(ports: &[DetectedPort], pnpid: &[String]) -> (targets: Vec<ConnectionTarget>)
    ensures
        protocol::target_views(targets@) == targets_of(ports@, text::texts(pnpid@)),
{
    let mut targets: Vec<ConnectionTarget> = Vec::new();
    let mut i: usize = 0;
    assert(protocol::target_views(targets@) =~= seq![]);
    while i < ports.len()
        invariant
            i <= ports.len(),
            protocol::target_views(targets@) == targets_of(ports@.take(i as int), text::texts(pnpid@)),
        decreases ports.len() - i,
    {
        let ghost before = protocol::target_views(targets@);
        assert(ports@.take(i + 1).drop_last() =~= ports@.take(i as int));
        assert(ports@.take(i + 1).last() == ports@[i as int]);
        let detected = &ports[i];
        if let Some(port) = &detected.port {
            if let Some(id) = port_pnp_id(port) {
                if is_wanted(pnpid, id.as_str()) {
                    let target = ConnectionTarget {
                        port: port.address.clone(),
                        label: port_label(detected, port),
                    };
                    targets.push(target);
                    assert(protocol::target_views(targets@) =~= before.push(target@));
                }
            }
        }
        i += 1;
    }
    assert(ports@.take(ports@.len() as int) =~= ports@);
    targets
}

/// The targets are just the detected boards that the editor asked for: none is missing and none is
/// made up.
pub proof fn targets_are_the_wanted_boards(ports: Seq<DetectedPort>, pnpid: Seq<Seq<char>>, target: ConnectionTargetView)
    ensures
        targets_of(ports, pnpid).contains(target) <==> exists|i: int|
            0 <= i < ports.len() && target_of(#[trigger] ports[i], pnpid) == Some(target),
    decreases ports.len(),
{
    if ports.len() > 0 {
        let earlier = ports.drop_last();
        targets_are_the_wanted_boards(earlier, pnpid, target);
        let before = targets_of(earlier, pnpid);
        let after = targets_of(ports, pnpid);
        assert(forall|i: int| 0 <= i < earlier.len() ==> earlier[i] == ports[i]);
        assert(ports.last() == ports[ports.len() - 1]);
        if before.contains(target) {
            let j = choose|j: int| 0 <= j < before.len() && before[j] == target;
            assert(after[j] == target);
            let i = choose|i: int| 0 <= i < earlier.len() && target_of(#[trigger] earlier[i], pnpid) == Some(target);
            assert(target_of(ports[i], pnpid) == Some(target));
        }
        if target_of(ports.last(), pnpid) == Some(target) {
            assert(after[before.len() as int] == target);
        }
        if after.contains(target) && !before.contains(target) {
            let j = choose|j: int| 0 <= j < after.len() && after[j] == target;
            if j < before.len() {
                assert(before[j] == target);
            }
        }
        if exists|i: int| 0 <= i < ports.len() && target_of(#[trigger] ports[i], pnpid) == Some(target) {
            let i = choose|i: int| 0 <= i < ports.len() && target_of(#[trigger] ports[i], pnpid) == Some(target);
            if i < earlier.len() {
                assert(target_of(earlier[i], pnpid) == Some(target));
            }
        }
    }
}

/// Whether `id` is the upper-case form of the hexadecimal id `raw` without a `0x` or `0X` in front
/// of it, for a `raw` in ASCII.
pub open spec fn is_plain_form(raw: Seq<char>, id: Seq<char>) -> bool {
    exists|digits: Seq<char>| #[trigger] is_behind_0x(raw, digits) && is_upper_case_of(digits, id)
}

/// Whether `digits` is what stands behind the `0x` or `0X` of `raw`, or all of it where there is
/// neither.
pub open spec fn is_behind_0x(raw: Seq<char>, digits: Seq<char>) -> bool {
    ||| raw == "0x"@ + digits
    ||| raw == "0X"@ + digits
    ||| raw == digits && !"0x"@.is_prefix_of(raw) && !"0X"@.is_prefix_of(raw)
}

/// Whether `upper` is the ASCII text `s` with its small letters made capital.
pub open spec fn is_upper_case_of(s: Seq<char>, upper: Seq<char>) -> bool {
    &&& upper.len() == s.len()
    &&& forall|i: int| #![trigger s[i]]
        0 <= i < s.len() ==> '\0' <= s[i] <= '\u{7f}' && upper[i] as int == s[i] as int - if 97 <= s[i] as int <= 122 {
            32int
        } else {
            0int
        }
}

/// A vendor or product id in ASCII is put into its plain form, whatever its case and prefix.
pub proof fn ids_are_put_into_plain_form(raw: Seq<char>, id: Seq<char>)
    requires
        is_plain_form(raw, id),
    ensures
        normalized(raw) == id,
{
    let digits = choose|digits: Seq<char>| #[trigger] is_behind_0x(raw, digits) && is_upper_case_of(digits, id);
    lemma_plain_form(raw, digits, id);
}

proof fn lemma_plain_form(raw: Seq<char>, digits: Seq<char>, id: Seq<char>)
    requires
        is_behind_0x(raw, digits),
        is_upper_case_of(digits, id),
    ensures
        normalized(raw) == id,
{
    reveal_strlit("0x");
    reveal_strlit("0X");
    text::a_prefix_can_be_put_back(raw, "0x"@, digits);
    text::a_prefix_can_be_put_back(raw, "0X"@, digits);
    if raw == "0X"@ + digits {
        assert(raw[1] == 'X');
        if "0x"@.is_prefix_of(raw) {
            assert(raw.subrange(0, 2)[1] == 'x');
        }
    }
    assert(vstd::utf8::is_ascii_chars(digits));
    let upper = digits.map_values(|c: char| text::ascii_upper(c));
    assert forall|i: int| 0 <= i < digits.len() implies upper[i] == id[i] by {
        assert(upper[i] as int == id[i] as int);
    }
    assert(upper =~= id);
}

/// Whether an entry asks for the id: they are of one length and agree letter by letter, the case of
/// ASCII letters put aside.
pub open spec fn asks_for(entry: Seq<char>, id: Seq<char>) -> bool {
    &&& entry.len() == id.len()
    &&& forall|i: int| 0 <= i < id.len() ==> text::same_letter(#[trigger] entry[i], id[i])
}

/// The label of a target: the name of the first board where there is one with a name, else the
/// port's label where it has one, else the port's address.
pub open spec fn is_label(detected: DetectedPort, port: Port, label: Seq<char>) -> bool {
    let named = detected.matching_boards@.len() > 0 && detected.matching_boards@[0].name@ != Seq::<char>::empty();
    &&& named ==> label == detected.matching_boards@[0].name@
    &&& !named && port.label@ != Seq::<char>::empty() ==> label == port.label@
    &&& !named && port.label@ == Seq::<char>::empty() ==> label == port.address@
}

/// A detected USB port is a target just where some entry asks for its whole PNP id, made of both the
/// vendor and the product id. The target has the port's address and its label.
pub proof fn a_port_is_listed_by_its_whole_id(
    detected: DetectedPort,
    port: Port,
    vendor: Seq<char>,
    product: Seq<char>,
    pnpid: Seq<Seq<char>>,
)
    requires
        detected.port == Some(port),
        port.properties@.contains_key("vid"@),
        port.properties@.contains_key("pid"@),
        is_plain_form(port.properties@["vid"@]@, vendor),
        is_plain_form(port.properties@["pid"@]@, product),
    ensures
        target_of(detected, pnpid) is Some <==> exists|j: int|
            0 <= j < pnpid.len() && asks_for(#[trigger] pnpid[j], "USB\\VID_"@ + vendor + "&PID_"@ + product),
        target_of(detected, pnpid) matches Some(target) ==> target.port == port.address@ && is_label(
            detected,
            port,
            target.label,
        ),
{
    ids_are_put_into_plain_form(port.properties@["vid"@]@, vendor);
    ids_are_put_into_plain_form(port.properties@["pid"@]@, product);
    let id = "USB\\VID_"@ + vendor + "&PID_"@ + product;
    assert(pnp_id(port) == Some(id));
    assert forall|j: int| 0 <= j < pnpid.len() implies text::same_but_ascii_case(#[trigger] pnpid[j], id) == asks_for(
        pnpid[j],
        id,
    ) by {
        text::ascii_case_is_all_that_is_put_aside(pnpid[j], id);
    }
    lemma_label(detected, port);
}

proof fn lemma_label(detected: DetectedPort, port: Port)
    ensures
        is_label(detected, port, label_of(detected, port)),
{
    if detected.matching_boards@.len() > 0 && detected.matching_boards@[0].name@.len() == 0 {
        assert(detected.matching_boards@[0].name@ =~= Seq::<char>::empty());
    }
    if port.label@.len() == 0 {
        assert(port.label@ =~= Seq::<char>::empty());
    }
}

/// Whatever the letters of its ids, a port is a target only where some entry agrees, letter by
/// letter, with its whole PNP id: the vendor's part and the product's.
pub proof fn a_target_was_asked_for_by_its_whole_id(detected: DetectedPort, pnpid: Seq<Seq<char>>)
    ensures
        target_of(detected, pnpid) is Some <==> {
            &&& detected.port matches Some(port)
            &&& port.properties@.contains_key("vid"@)
            &&& port.properties@.contains_key("pid"@)
            &&& exists|j: int|
                0 <= j < pnpid.len() && asks_for(
                    #[trigger] pnpid[j],
                    "USB\\VID_"@ + normalized(port.properties@["vid"@]@) + "&PID_"@ + normalized(
                        port.properties@["pid"@]@,
                    ),
                )
        },
        target_of(detected, pnpid) matches Some(target) ==> target.port == detected.port->0.address@ && is_label(
            detected,
            detected.port->0,
            target.label,
        ),
{
    if let Some(port) = detected.port {
        let id = "USB\\VID_"@ + normalized(port.properties@["vid"@]@) + "&PID_"@ + normalized(port.properties@["pid"@]@);
        assert forall|j: int| 0 <= j < pnpid.len() implies text::same_but_ascii_case(#[trigger] pnpid[j], id) == asks_for(
            pnpid[j],
            id,
        ) by {
            text::ascii_case_is_all_that_is_put_aside(pnpid[j], id);
        }
        lemma_label(detected, port);
    }
}

/// Where the one entry names another product than the port's, or another vendor, nothing is listed:
/// half an id is no match.
pub proof fn another_product_is_not_listed(
    detected: DetectedPort,
    port: Port,
    vendor: Seq<char>,
    product: Seq<char>,
    wanted_vendor: Seq<char>,
    wanted_product: Seq<char>,
)
    requires
        detected.port == Some(port),
        port.properties@.contains_key("vid"@),
        port.properties@.contains_key("pid"@),
        is_plain_form(port.properties@["vid"@]@, vendor),
        is_plain_form(port.properties@["pid"@]@, product),
        wanted_vendor.len() == vendor.len(),
        !asks_for(wanted_vendor, vendor) || !asks_for(wanted_product, product),
    ensures
        targets_of(seq![detected], seq!["USB\\VID_"@ + wanted_vendor + "&PID_"@ + wanted_product]).len() == 0,
{
    let entry = "USB\\VID_"@ + wanted_vendor + "&PID_"@ + wanted_product;
    let id = "USB\\VID_"@ + vendor + "&PID_"@ + product;
    let pnpid = seq![entry];
    a_port_is_listed_by_its_whole_id(detected, port, vendor, product, pnpid);
    if target_of(detected, pnpid) is Some {
        let j = choose|j: int| 0 <= j < pnpid.len() && asks_for(#[trigger] pnpid[j], id);
        assert(asks_for(entry, id));
        let a = "USB\\VID_"@.len() as int;
        let b = a + vendor.len() + "&PID_"@.len();
        assert forall|i: int| 0 <= i < vendor.len() implies text::same_letter(#[trigger] wanted_vendor[i], vendor[i]) by {
            assert(text::same_letter(entry[a + i], id[a + i]));
        }
        assert forall|i: int| 0 <= i < product.len() implies text::same_letter(#[trigger] wanted_product[i], product[i]) by {
            assert(text::same_letter(entry[b + i], id[b + i]));
        }
    }
    assert(seq![detected].drop_last() =~= Seq::<DetectedPort>::empty());
    assert(targets_of(Seq::<DetectedPort>::empty(), pnpid) =~= seq![]);
}

/// A port that is no USB device with a vendor and a product id is never a target.
pub proof fn a_port_without_ids_is_not_listed(detected: DetectedPort, pnpid: Seq<Seq<char>>)
    requires
        !(detected.port matches Some(port) && port.properties@.contains_key("vid"@) && port.properties@.contains_key(
            "pid"@,
        )),
    ensures
        target_of(detected, pnpid) is None,
        !is_board_port(detected),
{
}

/// A port counts as a board just where it has a vendor and a product id.
pub proof fn a_board_has_both_ids(detected: DetectedPort)
    ensures
        is_board_port(detected) <==> (detected.port matches Some(port) && port.properties@.contains_key("vid"@)
            && port.properties@.contains_key("pid"@)),
{
}

/// The targets come in the order of their ports: those of the first ports, then those of the rest.
pub proof fn targets_come_in_the_order_of_their_ports(a: Seq<DetectedPort>, b: Seq<DetectedPort>, pnpid: Seq<Seq<char>>)
    ensures
        targets_of(a + b, pnpid) == targets_of(a, pnpid) + targets_of(b, pnpid),
    decreases b.len(),
{
    if b.len() == 0 {
        assert(a + b =~= a);
        assert(targets_of(a, pnpid) + targets_of(b, pnpid) =~= targets_of(a, pnpid));
    } else {
        targets_come_in_the_order_of_their_ports(a, b.drop_last(), pnpid);
        assert((a + b).drop_last() =~= a + b.drop_last());
        assert((a + b).last() == b.last());
        assert(targets_of(a + b, pnpid) =~= targets_of(a, pnpid) + targets_of(b, pnpid));
    }
}

/// One port gives its one target, or none.
pub proof fn one_port_gives_at_most_one_target(detected: DetectedPort, pnpid: Seq<Seq<char>>)
    ensures
        targets_of(seq![detected], pnpid) == match target_of(detected, pnpid) {
            Some(target) => seq![target],
            None => seq![],
        },
{
    assert(seq![detected].drop_last() =~= Seq::<DetectedPort>::empty());
    assert(targets_of(Seq::<DetectedPort>::empty(), pnpid) =~= seq![]);
    assert(targets_of(seq![detected], pnpid) =~= match target_of(detected, pnpid) {
        Some(target) => seq![target],
        None => seq![],
    });
}

/// Every target that is listed has the address of a detected port, and some entry agrees, letter by
/// letter, with that port's whole PNP id.
pub proof fn every_target_was_asked_for(ports: Seq<DetectedPort>, pnpid: Seq<Seq<char>>, k: int) -> (i: int)
    requires
        0 <= k < targets_of(ports, pnpid).len(),
    ensures
        0 <= i < ports.len(),
        ports[i].port matches Some(port) && {
            &&& targets_of(ports, pnpid)[k].port == port.address@
            &&& is_label(ports[i], port, targets_of(ports, pnpid)[k].label)
            &&& port.properties@.contains_key("vid"@)
            &&& port.properties@.contains_key("pid"@)
            &&& exists|j: int|
                0 <= j < pnpid.len() && asks_for(
                    #[trigger] pnpid[j],
                    "USB\\VID_"@ + normalized(port.properties@["vid"@]@) + "&PID_"@ + normalized(
                        port.properties@["pid"@]@,
                    ),
                )
        },
{
    let target = targets_of(ports, pnpid)[k];
    targets_are_the_wanted_boards(ports, pnpid, target);
    assert(targets_of(ports, pnpid).contains(target));
    let i = choose|i: int| 0 <= i < ports.len() && target_of(#[trigger] ports[i], pnpid) == Some(target);
    a_target_was_asked_for_by_its_whole_id(ports[i], pnpid);
    i
}

/// The daemon is asked for every board at every port, for a second and without a cloud lookup.
pub proof fn every_board_is_asked_for(instance: Instance, req: BoardListRequest)
    requires
        call_ensures(build_board_list_request, (instance,), req),
    ensures
        req.instance == Some(instance),
        req.timeout == 1000,
        req.fqbn@.len() == 0,
        req.skip_cloud_api_for_board_detection,
{
}

} // verus!
