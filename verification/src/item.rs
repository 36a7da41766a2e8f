use vstd::prelude::*;

use fuzzy_matcher::FuzzyMatcher;

use crate::strings::{contains_lower, contains_seq, lower_seq};

verus! {

/// What kind of thing an item stands for.
#[derive(Clone, Copy, Debug, PartialEq, Eq, Hash, Structural)]
pub enum ItemType {
    Application,
    Script,
    Window,
    WifiNetwork,
    WifiAction,
    BluetoothDevice,
    BluetoothAction,
    AudioSink,
    AudioAction,
    File,
    RecentFile,
    Folder,
    ClipboardEntry,
    Note,
    NoteAction,
    Snippet,
    SnippetAction,
    Todo,
    TodoAction,
    SshConnection,
    SshAction,
    DockerContainer,
    DockerAction,
    Process,
    Emoji,
    Timer,
    TimerAction,
    Calculator,
    Converter,
    WebSearch,
    BitwardenItem,
    BitwardenAction,
    AiQuery,
    AiResponse,
    Command,
}

/// Extra data an item may carry, as plain values.
#[derive(Clone, Debug)]
pub struct ItemMetadata {
    pub terminal: bool,
    pub window_id: Option<i64>,
    pub workspace: Option<String>,
    pub ssid: Option<String>,
    pub signal_strength: Option<i32>,
    pub connected: bool,
    pub secured: bool,
    pub mac_address: Option<String>,
    pub paired: bool,
    pub volume: Option<u32>,
    pub muted: bool,
    pub sink_id: Option<String>,
    pub path: Option<String>,
    pub size: Option<u64>,
    pub modified: Option<String>,
    pub mime_type: Option<String>,
    pub pid: Option<u32>,
    pub clipboard_content: Option<String>,
    pub timestamp: Option<String>,
    pub host: Option<String>,
    pub port: Option<u16>,
    pub user: Option<String>,
    pub container_id: Option<String>,
    pub container_status: Option<String>,
    pub image: Option<String>,
    pub content: Option<String>,
    pub created: Option<String>,
    pub completed: bool,
    pub duration: Option<u64>,
    pub remaining: Option<u64>,
    pub username: Option<String>,
    pub password: Option<String>,
    pub totp: Option<String>,
    pub uri: Option<String>,
    pub search_engine: Option<String>,
    pub query: Option<String>,
    pub url: Option<String>,
}

/// Metadata with nothing set.
pub open spec fn empty_metadata() -> ItemMetadata {
    ItemMetadata {
        terminal: false,
        window_id: None,
        workspace: None,
        ssid: None,
        signal_strength: None,
        connected: false,
        secured: false,
        mac_address: None,
        paired: false,
        volume: None,
        muted: false,
        sink_id: None,
        path: None,
        size: None,
        modified: None,
        mime_type: None,
        pid: None,
        clipboard_content: None,
        timestamp: None,
        host: None,
        port: None,
        user: None,
        container_id: None,
        container_status: None,
        image: None,
        content: None,
        created: None,
        completed: false,
        duration: None,
        remaining: None,
        username: None,
        password: None,
        totp: None,
        uri: None,
        search_engine: None,
        query: None,
        url: None,
    }
}

impl ItemMetadata {
    pub fn new_empty() -> (r: ItemMetadata)
        ensures
            r == empty_metadata(),
    {
        ItemMetadata {
            terminal: false,
            window_id: None,
            workspace: None,
            ssid: None,
            signal_strength: None,
            connected: false,
            secured: false,
            mac_address: None,
            paired: false,
            volume: None,
            muted: false,
            sink_id: None,
            path: None,
            size: None,
            modified: None,
            mime_type: None,
            pid: None,
            clipboard_content: None,
            timestamp: None,
            host: None,
            port: None,
            user: None,
            container_id: None,
            container_status: None,
            image: None,
            content: None,
            created: None,
            completed: false,
            duration: None,
            remaining: None,
            username: None,
            password: None,
            totp: None,
            uri: None,
            search_engine: None,
            query: None,
            url: None,
        }
    }
}

impl Default for ItemMetadata {
    fn default() -> (r: ItemMetadata)
        ensures
            r == empty_metadata(),
    {
        ItemMetadata::new_empty()
    }
}

/// One searchable, selectable entry.
#[derive(Clone, Debug)]
pub struct Item {
    pub id: String,
    pub name: String,
    pub description: Option<String>,
    pub item_type: ItemType,
    pub icon: Option<String>,
    pub exec_cmd: Option<String>,
    pub keywords: Vec<String>,
    pub metadata: ItemMetadata,
}

impl Item {
    pub fn new(id: String, name: String, item_type: ItemType) -> (r: Item)
        ensures
            r.id == id,
            r.name == name,
            r.item_type == item_type,
            r.description is None,
            r.icon is None,
            r.exec_cmd is None,
            r.keywords@ =~= Seq::<String>::empty(),
            r.metadata == empty_metadata(),
    {
        Item {
            id,
            name,
            description: None,
            item_type,
            icon: None,
            exec_cmd: None,
            keywords: Vec::new(),
            metadata: ItemMetadata::new_empty(),
        }
    }

    pub fn with_description(self, desc: String) -> (r: Item)
        ensures
            r == (Item { description: Some(desc), ..self }),
    {
        Item { description: Some(desc), ..self }
    }

    pub fn with_icon(self, icon: String) -> (r: Item)
        ensures
            r == (Item { icon: Some(icon), ..self }),
    {
        Item { icon: Some(icon), ..self }
    }

    pub fn with_exec(self, exec_cmd: String) -> (r: Item)
        ensures
            r == (Item { exec_cmd: Some(exec_cmd), ..self }),
    {
        Item { exec_cmd: Some(exec_cmd), ..self }
    }

    pub fn with_keywords(self, keywords: Vec<String>) -> (r: Item)
        ensures
            r == (Item { keywords, ..self }),
    {
        Item { keywords, ..self }
    }

    /// Case-insensitive substring match against name, description and
    /// keywords.
    pub open spec fn spec_matches(self, q: Seq<char>) -> bool {
        contains_seq(lower_seq(self.name@), lower_seq(q)) || (self.description matches Some(d)
            && contains_seq(lower_seq(d@), lower_seq(q))) || (exists|k: int|
            0 <= k < self.keywords@.len() && contains_seq(
                lower_seq(self.keywords@[k]@),
                lower_seq(q),
            ))
    }

    /// Whether the query occurs, case-insensitively, in the item's name,
    /// description or any keyword.
    pub fn matches(&self, query: &str) -> (r: bool)
        ensures
            r == self.spec_matches(query@),
    {
        if contains_lower(self.name.as_str(), query) {
            return true;
        }
        match &self.description {
            Some(d) => {
                if contains_lower(d.as_str(), query) {
                    return true;
                }
            },
            None => {},
        }
        let n: usize = self.keywords.len();
        let mut k: usize = 0;
        while k < n
            invariant
                k <= n,
                n == self.keywords@.len(),
                forall|t: int|
                    0 <= t < k ==> !contains_seq(
                        lower_seq(self.keywords@[t]@),
                        lower_seq(query@),
                    ),
            decreases n - k,
        {
            if contains_lower(self.keywords[k].as_str(), query) {
                return true;
            }
            k = k + 1;
        }
        false
    }
}

/// The score that fuzzy_matcher's `SkimMatcherV2` (default configuration)
/// gives a choice string against a pattern; it depends on the two strings
/// alone.
pub uninterp spec fn skim_score(choice: Seq<char>, pattern: Seq<char>) -> Option<i64>;

/// Relies on fuzzy_matcher's `SkimMatcherV2::fuzzy_match` with the default
/// configuration: a deterministic score for a choice against a pattern.
#[verifier::external_body]
fn skim_fuzzy_match(choice: &str, pattern: &str) -> (r: Option<i64>)
    ensures
        r == skim_score(choice@, pattern@),
{
    fuzzy_matcher::skim::SkimMatcherV2::default().fuzzy_match(choice, pattern)
}

/// What a full-weight field contributes to the best score.
pub open spec fn full_contrib(s: Option<i64>) -> int {
    match s {
        Some(v) => if v > 0 {
            v as int
        } else {
            0
        },
        None => 0,
    }
}

/// What a half-weight field (description, keyword) contributes: the score
/// halved, rounding toward zero.
pub open spec fn half_contrib(s: Option<i64>) -> int {
    match s {
        Some(v) => if v > 0 {
            v as int / 2
        } else {
            0
        },
        None => 0,
    }
}

/// The best half-weight contribution among the keywords.
pub open spec fn kw_best(kws: Seq<String>, q: Seq<char>) -> int
    decreases kws.len(),
{
    if kws.len() == 0 {
        0
    } else {
        let prev = kw_best(kws.drop_last(), q);
        let h = half_contrib(skim_score(kws.last()@, q));
        if h > prev {
            h
        } else {
            prev
        }
    }
}

/// The item's fuzzy score: the best of the name's full-weight score and
/// the half-weight scores of the description and each keyword; never
/// negative, and zero means no match.
pub open spec fn spec_fuzzy_score(it: Item, q: Seq<char>) -> int {
    let nc = full_contrib(skim_score(it.name@, q));
    let dc = match it.description {
        Some(d) => half_contrib(skim_score(d@, q)),
        None => 0,
    };
    let kc = kw_best(it.keywords@, q);
    if nc >= dc && nc >= kc {
        nc
    } else if dc >= kc {
        dc
    } else {
        kc
    }
}

/// Half weighting never beats full weighting: at equal raw score, a name
/// match contributes at least as much as a description or keyword match.
pub proof fn lemma_name_weight_dominates(s: Option<i64>)
    ensures
        full_contrib(s) >= half_contrib(s),
{
    match s {
        Some(v) => {
            if v > 0 {
                assert(v as int / 2 <= v) by (nonlinear_arith)
                    requires
                        v > 0,
                ;
            }
        },
        None => {},
    }
}

/// The name's contribution bounds the score from below: an item whose
/// name matches can never score zero.
pub proof fn lemma_score_at_least_name(it: Item, q: Seq<char>)
    ensures
        spec_fuzzy_score(it, q) >= full_contrib(skim_score(it.name@, q)),
{
}

impl Item {
    /// The relevance of this item for a query.
    pub fn fuzzy_score(&self, query: &str) -> (r: i64)
        ensures
            r as int == spec_fuzzy_score(*self, query@),
            r >= 0,
    {
        let mut best: i64 = 0;
        match skim_fuzzy_match(self.name.as_str(), query) {
            Some(s) => {
                if s > best {
                    best = s;
                }
            },
            None => {},
        }
        match &self.description {
            Some(d) => {
                match skim_fuzzy_match(d.as_str(), query) {
                    Some(s) => {
                        if s > 0 {
                            let h: i64 = ((s as u64) / 2) as i64;
                            if h > best {
                                best = h;
                            }
                        }
                    },
                    None => {},
                }
            },
            None => {},
        }
        let ghost nc = full_contrib(skim_score(self.name@, query@));
        let ghost dc: int = match &self.description {
            Some(d) => half_contrib(skim_score(d@, query@)),
            None => 0int,
        };
        let n: usize = self.keywords.len();
        let mut k: usize = 0;
        while k < n
            invariant
                k <= n,
                n == self.keywords@.len(),
                best >= 0,
                nc == full_contrib(skim_score(self.name@, query@)),
                dc == (match self.description {
                    Some(d) => half_contrib(skim_score(d@, query@)),
                    None => 0int,
                }),
                best as int == vstd::math::max(
                    vstd::math::max(nc, dc),
                    kw_best(self.keywords@.subrange(0, k as int), query@),
                ),
            decreases n - k,
        {
            match skim_fuzzy_match(self.keywords[k].as_str(), query) {
                Some(s) => {
                    if s > 0 {
                        let h: i64 = ((s as u64) / 2) as i64;
                        if h > best {
                            best = h;
                        }
                    }
                },
                None => {},
            }
            proof {
                assert(self.keywords@.subrange(0, k + 1).drop_last() =~= self.keywords@.subrange(
                    0,
                    k as int,
                ));
                assert(self.keywords@.subrange(0, k + 1).last() == self.keywords@[k as int]);
            }
            k = k + 1;
        }
        proof {
            assert(self.keywords@.subrange(0, n as int) =~= self.keywords@);
        }
        best
    }
}

} // verus!
