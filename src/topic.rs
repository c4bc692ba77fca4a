use vstd::prelude::*;
use vstd::string::*;

verus! {

/// The kind of a bus topic that the bridge subscribes to.
#[derive(Clone, Copy, Debug, PartialEq, Eq, Structural)]
pub enum TopicType {
    Anemometer,
    SPS30,
    Imu,
    Status,
    Unknown,
}

/// The topic paths that the bridge subscribes to, in subscription order.
pub open spec fn subscribed_paths() -> Seq<Seq<char>> {
    seq!["anemometer"@, "sps30"@, "imu"@, "status"@]
}

/// The topic paths to subscribe to on the bus.
pub fn subscription_paths() -> (r: Vec<&'static str>)
    ensures
        r@.map_values(|s: &str| s@) == subscribed_paths(),
{
    let r = vec!["anemometer", "sps30", "imu", "status"];
    assert(r@.map_values(|s: &str| s@) =~= subscribed_paths());
    r
}

/// The bus topic on which commands from the serial device are published.
pub fn command_topic() -> (r: &'static str)
    ensures
        r@ == "command"@,
{
    "command"
}

/// The kind of a topic path: exact match against the subscribed paths.
pub open spec fn topic_of(path: Seq<char>) -> TopicType {
    if path == "anemometer"@ {
        TopicType::Anemometer
    } else if path == "sps30"@ {
        TopicType::SPS30
    } else if path == "imu"@ {
        TopicType::Imu
    } else if path == "status"@ {
        TopicType::Status
    } else {
        TopicType::Unknown
    }
}

/// The short code written into the `topic` member of a relayed message.
pub open spec fn code_of(kind: TopicType) -> Seq<char> {
    match kind {
        TopicType::Anemometer => "anm"@,
        TopicType::SPS30 => "sps"@,
        TopicType::Imu => "imu"@,
        TopicType::Status => "status"@,
        TopicType::Unknown => Seq::empty(),
    }
}

/// Whether two texts hold the same characters.
pub fn same_text(a: &str, b: &str) -> (r: bool)
    ensures
        r == (a@ == b@),
{
    let n = a.unicode_len();
    if n != b.unicode_len() {
        return false;
    }
    let mut i: usize = 0;
    while i < n
        invariant
            n == a@.len(),
            n == b@.len(),
            i <= n,
            a@.subrange(0, i as int) == b@.subrange(0, i as int),
        decreases n - i,
    {
        if a.get_char(i) != b.get_char(i) {
            return false;
        }
        assert(a@.subrange(0, i + 1) == a@.subrange(0, i as int).push(a@[i as int]));
        assert(b@.subrange(0, i + 1) == b@.subrange(0, i as int).push(b@[i as int]));
        i = i + 1;
    }
    assert(a@ == a@.subrange(0, n as int));
    assert(b@ == b@.subrange(0, n as int));
    true
}

/// Maps a bus topic path to its kind; any path outside the subscribed set is
/// `Unknown`.
pub fn match_topic(topic: &str) -> (r: TopicType)
    ensures
        r == topic_of(topic@),
{
    if same_text(topic, "anemometer") {
        TopicType::Anemometer
    } else if same_text(topic, "sps30") {
        TopicType::SPS30
    } else if same_text(topic, "imu") {
        TopicType::Imu
    } else if same_text(topic, "status") {
        TopicType::Status
    } else {
        TopicType::Unknown
    }
}

/// The short code of a known topic kind.
pub fn topic_code(kind: TopicType) -> (r: &'static str)
    requires
        kind != TopicType::Unknown,
    ensures
        r@ == code_of(kind),
{
    match kind {
        TopicType::Anemometer => "anm",
        TopicType::SPS30 => "sps",
        TopicType::Imu => "imu",
        TopicType::Status => "status",
        TopicType::Unknown => "",
    }
}

/// Topic matching is total and exact: each subscribed path has its own kind,
/// and every other path is `Unknown`, whatever it holds.
pub proof fn lemma_match_topic_exact(path: Seq<char>)
    ensures
        topic_of(path) == TopicType::Unknown <==> !subscribed_paths().contains(path),
        topic_of("anemometer"@) == TopicType::Anemometer,
        topic_of("sps30"@) == TopicType::SPS30,
        topic_of("imu"@) == TopicType::Imu,
        topic_of("status"@) == TopicType::Status,
{
    reveal_strlit("anemometer");
    reveal_strlit("sps30");
    reveal_strlit("imu");
    reveal_strlit("status");
    assert("anemometer"@.len() == 10 && "sps30"@.len() == 5);
    assert("imu"@.len() == 3 && "status"@.len() == 6);
    let s = subscribed_paths();
    if s.contains(path) {
        let i = choose|i: int| 0 <= i < s.len() && s[i] == path;
        assert(i == 0 || i == 1 || i == 2 || i == 3);
    }
    if topic_of(path) != TopicType::Unknown {
        if path == "anemometer"@ {
            assert(s[0] == path);
        } else if path == "sps30"@ {
            assert(s[1] == path);
        } else if path == "imu"@ {
            assert(s[2] == path);
        } else {
            assert(s[3] == path);
        }
    }
}

} // verus!
