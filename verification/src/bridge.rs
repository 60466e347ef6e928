//! The Neovim connections of the terminals, and the decisions around them.

use vstd::prelude::*;
use crate::nvim_types::ConnectionStatus;

verus! {

struct BridgeEntry<C> {
    terminal_id: String,
    socket_path: String,
    connection: C,
}

/// The Neovim connection of each terminal that has one, keyed by terminal id.
/// `C` is the live connection handle.
pub struct NvimBridgeState<C> {
    entries: Vec<BridgeEntry<C>>,
}

spec fn keyed<C>(entries: Seq<BridgeEntry<C>>, key: Seq<char>, i: int) -> bool {
    0 <= i < entries.len() && entries[i].terminal_id@ == key
}

spec fn has_key<C>(entries: Seq<BridgeEntry<C>>, key: Seq<char>) -> bool {
    exists|i: int| #[trigger] keyed(entries, key, i)
}

spec fn key_index<C>(entries: Seq<BridgeEntry<C>>, key: Seq<char>) -> int {
    choose|i: int| #[trigger] keyed(entries, key, i)
}

spec fn distinct_keys<C>(entries: Seq<BridgeEntry<C>>) -> bool {
    forall|a: int, b: int|
        0 <= a < entries.len() && 0 <= b < entries.len() && a != b
            ==> #[trigger] entries[a].terminal_id@ != #[trigger] entries[b].terminal_id@
}

spec fn entries_map<C>(entries: Seq<BridgeEntry<C>>) -> Map<Seq<char>, (Seq<char>, C)> {
    Map::new(
        |k: Seq<char>| has_key(entries, k),
        |k: Seq<char>| {
            let e = entries[key_index(entries, k)];
            (e.socket_path@, e.connection)
        },
    )
}

proof fn lemma_entry_in_map<C>(entries: Seq<BridgeEntry<C>>, i: int)
    requires
        distinct_keys(entries),
        0 <= i < entries.len(),
    ensures
        entries_map(entries).contains_key(entries[i].terminal_id@),
        entries_map(entries)[entries[i].terminal_id@] == (entries[i].socket_path@, entries[i].connection),
{
    let k = entries[i].terminal_id@;
    assert(keyed(entries, k, i));
    let j = key_index(entries, k);
    assert(keyed(entries, k, j));
}

proof fn lemma_key_absent<C>(entries: Seq<BridgeEntry<C>>, k: Seq<char>)
    requires
        forall|i: int| 0 <= i < entries.len() ==> entries[i].terminal_id@ != k,
    ensures
        !entries_map(entries).contains_key(k),
{
    if has_key(entries, k) {
        let j = key_index(entries, k);
        assert(keyed(entries, k, j));
    }
}

proof fn lemma_key_present<C>(entries: Seq<BridgeEntry<C>>, k: Seq<char>) -> (i: int)
    requires
        entries_map(entries).contains_key(k),
    ensures
        0 <= i < entries.len(),
        entries[i].terminal_id@ == k,
{
    let i = key_index(entries, k);
    assert(keyed(entries, k, i));
    i
}

impl<C> View for NvimBridgeState<C> {
    /// Terminal id to the socket path and the handle of its connection.
    type V = Map<Seq<char>, (Seq<char>, C)>;

    closed spec fn view(&self) -> Map<Seq<char>, (Seq<char>, C)> {
        entries_map(self.entries@)
    }
}

/// The message of a lookup of a terminal without a connection.
pub open spec fn no_connection_message(terminal_id: Seq<char>) -> Seq<char> {
    "No neovim connection for terminal: "@ + terminal_id
}

/// `status` describes the connection, if any, of `terminal_id` in `connections`.
pub open spec fn status_describes<C>(
    status: ConnectionStatus,
    connections: Map<Seq<char>, (Seq<char>, C)>,
    terminal_id: Seq<char>,
) -> bool {
    match status {
        ConnectionStatus::Connected { socket_path } => connections.contains_key(terminal_id)
            && socket_path@ == connections[terminal_id].0,
        ConnectionStatus::Disconnected => !connections.contains_key(terminal_id),
        ConnectionStatus::Error(_) => false,
    }
}

impl<C> NvimBridgeState<C> {
    /// No two connections share a terminal id.
    pub closed spec fn wf(&self) -> bool {
        distinct_keys(self.entries@)
    }

    /// A bridge without connections.
    pub fn new() -> (bridge: Self)
        ensures
            bridge.wf(),
            bridge@ == Map::<Seq<char>, (Seq<char>, C)>::empty(),
    {
        let bridge = NvimBridgeState { entries: Vec::new() };
        proof {
            assert forall|k: Seq<char>| !(#[trigger] bridge@.contains_key(k)) by {
                lemma_key_absent(bridge.entries@, k);
            }
            assert(bridge@ =~= Map::<Seq<char>, (Seq<char>, C)>::empty());
        }
        bridge
    }

    fn find(&self, terminal_id: &String) -> (found: Option<usize>)
        ensures
            match found {
                Some(i) => i < self.entries.len() && self.entries@[i as int].terminal_id@ == terminal_id@,
                None => forall|i: int|
                    0 <= i < self.entries.len() ==> self.entries@[i].terminal_id@ != terminal_id@,
            },
    {
        let mut i: usize = 0;
        while i < self.entries.len()
            invariant
                i <= self.entries.len(),
                forall|j: int| 0 <= j < i ==> self.entries@[j].terminal_id@ != terminal_id@,
            decreases self.entries.len() - i,
        {
            if self.entries[i].terminal_id == *terminal_id {
                return Some(i);
            }
            i = i + 1;
        }
        None
    }

    /// Records the connection of `terminal_id`, replacing the one it had.
    pub fn connect(&mut self, terminal_id: String, socket_path: String, connection: C)
        requires
            old(self).wf(),
        ensures
            final(self).wf(),
            final(self)@ == old(self)@.insert(terminal_id@, (socket_path@, connection)),
    {
        let ghost before = self.entries@;
        let ghost key = terminal_id@;
        let ghost value = (socket_path@, connection);
        let found = self.find(&terminal_id);
        let entry = BridgeEntry { terminal_id, socket_path, connection };
        match found {
            Some(i) => {
                self.entries.set(i, entry);
                proof {
                    let after = self.entries@;
                    assert forall|a: int| 0 <= a < after.len() implies #[trigger] after[a].terminal_id@
                        == before[a].terminal_id@ by {
                        if a == i {
                        }
                    }
                    assert(distinct_keys(after));
                    assert forall|k: Seq<char>| #[trigger] entries_map(after).contains_key(k)
                        == entries_map(before).insert(key, value).contains_key(k) by {
                        if entries_map(after).contains_key(k) {
                            let j = lemma_key_present(after, k);
                            lemma_entry_in_map(before, j);
                        }
                        if entries_map(before).contains_key(k) {
                            let j = lemma_key_present(before, k);
                            lemma_entry_in_map(after, j);
                        }
                        lemma_entry_in_map(after, i as int);
                    }
                    assert forall|k: Seq<char>| #[trigger] entries_map(after).contains_key(k)
                        implies entries_map(after)[k] == entries_map(before).insert(key, value)[k] by {
                        let j = lemma_key_present(after, k);
                        lemma_entry_in_map(after, j);
                        if j != i as int {
                            lemma_entry_in_map(before, j);
                        }
                    }
                    assert(entries_map(after) =~= entries_map(before).insert(key, value));
                }
            },
            None => {
                self.entries.push(entry);
                proof {
                    let after = self.entries@;
                    assert(distinct_keys(after));
                    assert forall|k: Seq<char>| #[trigger] entries_map(after).contains_key(k)
                        == entries_map(before).insert(key, value).contains_key(k) by {
                        if entries_map(after).contains_key(k) {
                            let j = lemma_key_present(after, k);
                            if j < before.len() {
                                lemma_entry_in_map(before, j);
                            }
                        }
                        if entries_map(before).contains_key(k) {
                            let j = lemma_key_present(before, k);
                            lemma_entry_in_map(after, j);
                        }
                        lemma_entry_in_map(after, before.len() as int);
                    }
                    assert forall|k: Seq<char>| #[trigger] entries_map(after).contains_key(k)
                        implies entries_map(after)[k] == entries_map(before).insert(key, value)[k] by {
                        let j = lemma_key_present(after, k);
                        lemma_entry_in_map(after, j);
                        if j < before.len() {
                            lemma_entry_in_map(before, j);
                        }
                    }
                    assert(entries_map(after) =~= entries_map(before).insert(key, value));
                }
            },
        }
    }

    /// Drops the connection of `terminal_id`, if it has one.
    pub fn disconnect(&mut self, terminal_id: &String)
        requires
            old(self).wf(),
        ensures
            final(self).wf(),
            final(self)@ == old(self)@.remove(terminal_id@),
    {
        let ghost before = self.entries@;
        let ghost key = terminal_id@;
        match self.find(terminal_id) {
            Some(i) => {
                let _removed = self.entries.remove(i);
                proof {
                    let after = self.entries@;
                    assert(distinct_keys(after)) by {
                        assert forall|a: int, b: int|
                            0 <= a < after.len() && 0 <= b < after.len() && a != b implies
                            #[trigger] after[a].terminal_id@ != #[trigger] after[b].terminal_id@ by {
                            let a0 = if a < i { a } else { a + 1 };
                            let b0 = if b < i { b } else { b + 1 };
                            assert(after[a] == before[a0]);
                            assert(after[b] == before[b0]);
                        }
                    }
                    assert forall|k: Seq<char>| #[trigger] entries_map(after).contains_key(k)
                        == entries_map(before).remove(key).contains_key(k) by {
                        if entries_map(after).contains_key(k) {
                            let j = lemma_key_present(after, k);
                            let j0 = if j < i { j } else { j + 1 };
                            assert(after[j] == before[j0]);
                            lemma_entry_in_map(before, j0);
                        }
                        if entries_map(before).contains_key(k) && k != key {
                            let j0 = lemma_key_present(before, k);
                            let j = if j0 < i { j0 } else { j0 - 1 };
                            assert(after[j] == before[j0]);
                            lemma_entry_in_map(after, j);
                        }
                    }
                    assert forall|k: Seq<char>| #[trigger] entries_map(after).contains_key(k)
                        implies entries_map(after)[k] == entries_map(before).remove(key)[k] by {
                        let j = lemma_key_present(after, k);
                        let j0 = if j < i { j } else { j + 1 };
                        assert(after[j] == before[j0]);
                        lemma_entry_in_map(after, j);
                        lemma_entry_in_map(before, j0);
                    }
                    assert(entries_map(after) =~= entries_map(before).remove(key));
                }
            },
            None => {
                proof {
                    lemma_key_absent(before, key);
                    assert(entries_map(before) =~= entries_map(before).remove(key));
                }
            },
        }
    }

    /// The connection status of `terminal_id`.
    pub fn status(&self, terminal_id: &String) -> (status: ConnectionStatus)
        requires
            self.wf(),
        ensures
            status_describes(status, self@, terminal_id@),
    {
        match self.find(terminal_id) {
            Some(i) => {
                proof {
                    lemma_entry_in_map(self.entries@, i as int);
                }
                ConnectionStatus::Connected { socket_path: self.entries[i].socket_path.clone() }
            },
            None => {
                proof {
                    lemma_key_absent(self.entries@, terminal_id@);
                }
                ConnectionStatus::Disconnected
            },
        }
    }

    /// The connection handle of `terminal_id`, or the message that it has none.
    pub fn connection(&self, terminal_id: &String) -> (found: Result<&C, String>)
        requires
            self.wf(),
        ensures
            match found {
                Ok(c) => self@.contains_key(terminal_id@) && *c == self@[terminal_id@].1,
                Err(message) => !self@.contains_key(terminal_id@)
                    && message@ == no_connection_message(terminal_id@),
            },
    {
        match self.find(terminal_id) {
            Some(i) => {
                proof {
                    lemma_entry_in_map(self.entries@, i as int);
                }
                Ok(&self.entries[i].connection)
            },
            None => {
                proof {
                    lemma_key_absent(self.entries@, terminal_id@);
                }
                let mut message = String::from_str("No neovim connection for terminal: ");
                message.append(terminal_id.as_str());
                Err(message)
            },
        }
    }
}

/// The notification name under which the injected Lua reports an action.
pub open spec fn action_notification_name() -> Seq<char> {
    "libg_action"@
}

/// The payload of a Neovim notification that reports an action: its first
/// argument, when the notification is named `libg_action` and has one.
pub fn action_payload<V>(name: &String, args: Vec<V>) -> (payload: Option<V>)
    ensures
        payload == (if name@ == action_notification_name() && args.len() > 0 {
            Some(args@[0])
        } else {
            None::<V>
        }),
{
    let expected = String::from_str("libg_action");
    if *name == expected && args.len() > 0 {
        let mut args = args;
        Some(args.remove(0))
    } else {
        None
    }
}

/// The message when the first item of Neovim's API info is not an integer.
pub open spec fn missing_channel_message() -> Seq<char> {
    "Failed to extract channel ID from api info"@
}

/// The RPC channel id of this client: the first item of Neovim's API info,
/// given as `first_item`, its integer value when it is an integer.
pub fn channel_id_from_api_info(first_item: Option<i64>) -> (channel: Result<i64, String>)
    ensures
        match first_item {
            Some(id) => channel == Ok::<i64, String>(id),
            None => channel matches Err(m) && m@ == missing_channel_message(),
        },
{
    match first_item {
        Some(id) => Ok(id),
        None => Err(String::from_str("Failed to extract channel ID from api info")),
    }
}

/// A step of connecting to Neovim that failed, with the error text of the
/// failing call where there is one.
pub enum ConnectFailure {
    Connect { socket_path: String, error: String },
    ApiInfo { error: String },
    ChannelId,
    InjectLua { error: String },
}

/// The message reported for a failed connection step.
pub open spec fn connect_failure_message(failure: ConnectFailure) -> Seq<char> {
    match failure {
        ConnectFailure::Connect { socket_path, error } => "Failed to connect to neovim at "@
            + socket_path@ + ": "@ + error@,
        ConnectFailure::ApiInfo { error } => "Failed to get api info: "@ + error@,
        ConnectFailure::ChannelId => missing_channel_message(),
        ConnectFailure::InjectLua { error } => "Failed to inject lua keybindings: "@ + error@,
    }
}

impl ConnectFailure {
    /// The message reported for this failure.
    pub fn message(&self) -> (message: String)
        ensures
            message@ == connect_failure_message(*self),
    {
        match self {
            ConnectFailure::Connect { socket_path, error } => {
                let mut m = String::from_str("Failed to connect to neovim at ");
                m.append(socket_path.as_str());
                m.append(": ");
                m.append(error.as_str());
                m
            },
            ConnectFailure::ApiInfo { error } => {
                let mut m = String::from_str("Failed to get api info: ");
                m.append(error.as_str());
                m
            },
            ConnectFailure::ChannelId => String::from_str("Failed to extract channel ID from api info"),
            ConnectFailure::InjectLua { error } => {
                let mut m = String::from_str("Failed to inject lua keybindings: ");
                m.append(error.as_str());
                m
            },
        }
    }
}

/// After `connect(terminal_id, socket_path, _)`, the status of `terminal_id`
/// is `Connected` with that socket path, whatever the bridge held before.
pub proof fn law_status_after_connect<C>(
    connections: Map<Seq<char>, (Seq<char>, C)>,
    terminal_id: Seq<char>,
    socket_path: Seq<char>,
    connection: C,
    status: ConnectionStatus,
)
    requires
        status_describes(status, connections.insert(terminal_id, (socket_path, connection)), terminal_id),
    ensures
        status matches ConnectionStatus::Connected { socket_path: p } && p@ == socket_path,
{
}

/// After `connect(terminal_id, _, connection)`, looking `terminal_id` up
/// yields that connection.
pub proof fn law_lookup_after_connect<C>(
    connections: Map<Seq<char>, (Seq<char>, C)>,
    terminal_id: Seq<char>,
    socket_path: Seq<char>,
    connection: C,
)
    ensures
        connections.insert(terminal_id, (socket_path, connection)).contains_key(terminal_id),
        connections.insert(terminal_id, (socket_path, connection))[terminal_id].1 == connection,
{
}

/// After `disconnect(terminal_id)`, the status of `terminal_id` is
/// `Disconnected` and a lookup of it is refused.
pub proof fn law_status_after_disconnect<C>(
    connections: Map<Seq<char>, (Seq<char>, C)>,
    terminal_id: Seq<char>,
    status: ConnectionStatus,
)
    requires
        status_describes(status, connections.remove(terminal_id), terminal_id),
    ensures
        status is Disconnected,
        !connections.remove(terminal_id).contains_key(terminal_id),
{
}

/// Connecting or disconnecting one terminal leaves the status of every other
/// terminal as it was.
pub proof fn law_other_terminals_unaffected<C>(
    connections: Map<Seq<char>, (Seq<char>, C)>,
    terminal_id: Seq<char>,
    other: Seq<char>,
    socket_path: Seq<char>,
    connection: C,
    status: ConnectionStatus,
)
    requires
        other != terminal_id,
    ensures
        status_describes(status, connections.insert(terminal_id, (socket_path, connection)), other)
            == status_describes(status, connections, other),
        status_describes(status, connections.remove(terminal_id), other) == status_describes(
            status,
            connections,
            other,
        ),
{
}

/// The texts that the bridge reports: a lookup of a terminal without a
/// connection names the terminal; each failed connection step names what
/// failed and carries the error of the failing call (and, for the socket,
/// its path); actions arrive as `libg_action` notifications.
pub proof fn law_bridge_messages(terminal_id: String, socket_path: String, error: String)
    ensures
        no_connection_message(terminal_id@) == "No neovim connection for terminal: "@ + terminal_id@,
        connect_failure_message(ConnectFailure::Connect { socket_path, error })
            == "Failed to connect to neovim at "@ + socket_path@ + ": "@ + error@,
        connect_failure_message(ConnectFailure::ApiInfo { error }) == "Failed to get api info: "@ + error@,
        connect_failure_message(ConnectFailure::ChannelId) == "Failed to extract channel ID from api info"@,
        connect_failure_message(ConnectFailure::InjectLua { error })
            == "Failed to inject lua keybindings: "@ + error@,
        missing_channel_message() == "Failed to extract channel ID from api info"@,
        action_notification_name() == "libg_action"@,
{
}

} // verus!
