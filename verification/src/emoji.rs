use vstd::prelude::*;

use crate::item::{Item, ItemType};
use crate::strings::{contains_chars, contains_seq, lower_seq, to_chars, to_lower_chars};

verus! {

/// One emoji with its name and search keywords.
pub struct EmojiEntry {
    pub emoji: String,
    pub name: String,
    pub keywords: Vec<String>,
}

/// Whether an entry answers a lower-cased query: an empty query matches
/// everything, otherwise the query must occur in the name or a keyword.
pub open spec fn emoji_matches(e: EmojiEntry, ql: Seq<char>) -> bool {
    ql.len() == 0 || contains_seq(e.name@, ql) || (exists|k: int|
        0 <= k < e.keywords@.len() && contains_seq(e.keywords@[k]@, ql))
}

/// The entries answering a query, in table order.
pub open spec fn filtered_emojis(entries: Seq<EmojiEntry>, ql: Seq<char>) -> Seq<EmojiEntry>
    decreases entries.len(),
{
    if entries.len() == 0 {
        Seq::empty()
    } else {
        let rest = filtered_emojis(entries.drop_last(), ql);
        if emoji_matches(entries.last(), ql) {
            rest.push(entries.last())
        } else {
            rest
        }
    }
}

/// The emoji table.
pub struct EmojiManager {
    pub emojis: Vec<EmojiEntry>,
}

fn entry(emoji: &str, name: &str, keywords: Vec<String>) -> (r: EmojiEntry)
    ensures
        r.emoji@ == emoji@,
        r.name@ == name@,
        r.keywords == keywords,
{
    EmojiEntry {
        emoji: String::from_str(emoji),
        name: String::from_str(name),
        keywords,
    }
}

fn kw1(a: &str) -> (r: Vec<String>) {
    vec![String::from_str(a)]
}

fn kw2(a: &str, b: &str) -> (r: Vec<String>) {
    vec![String::from_str(a), String::from_str(b)]
}

fn kw3(a: &str, b: &str, c: &str) -> (r: Vec<String>) {
    vec![String::from_str(a), String::from_str(b), String::from_str(c)]
}

fn kw4(a: &str, b: &str, c: &str, d: &str) -> (r: Vec<String>) {
    vec![String::from_str(a), String::from_str(b), String::from_str(c), String::from_str(d)]
}

impl EmojiManager {
    /// The built-in table.
    #[verifier::rlimit(100)]
    pub fn new() -> (m: EmojiManager) {
        let mut v: Vec<EmojiEntry> = Vec::new();
        v.push(entry("😀", "grinning face", kw3("smile", "happy", "grin")));
        v.push(entry("😃", "grinning face with big eyes", kw2("smile", "happy")));
        v.push(entry("😄", "grinning face with smiling eyes", kw2("smile", "happy")));
        v.push(entry("😁", "beaming face with smiling eyes", kw3("smile", "happy", "grin")));
        v.push(entry("😆", "grinning squinting face", kw2("laugh", "happy")));
        v.push(entry("😅", "grinning face with sweat", kw2("sweat", "nervous")));
        v.push(entry("🤣", "rolling on the floor laughing", kw3("rofl", "laugh", "lol")));
        v.push(entry("😂", "face with tears of joy", kw4("laugh", "cry", "lol", "joy")));
        v.push(entry("🙂", "slightly smiling face", kw1("smile")));
        v.push(entry("🙃", "upside-down face", kw2("silly", "sarcasm")));
        v.push(entry("😉", "winking face", kw1("wink")));
        v.push(entry("😊", "smiling face with smiling eyes", kw2("blush", "smile")));
        v.push(entry("😇", "smiling face with halo", kw2("angel", "innocent")));
        v.push(entry("🥰", "smiling face with hearts", kw2("love", "hearts")));
        v.push(entry("😍", "smiling face with heart-eyes", kw3("love", "heart", "eyes")));
        v.push(entry("🤩", "star-struck", kw3("star", "eyes", "wow")));
        v.push(entry("😘", "face blowing a kiss", kw2("kiss", "love")));
        v.push(entry("😗", "kissing face", kw1("kiss")));
        v.push(entry("😚", "kissing face with closed eyes", kw1("kiss")));
        v.push(entry("😙", "kissing face with smiling eyes", kw1("kiss")));
        v.push(entry("🥲", "smiling face with tear", kw3("happy", "sad", "tear")));
        v.push(entry("😋", "face savoring food", kw2("yum", "delicious")));
        v.push(entry("😛", "face with tongue", kw1("tongue")));
        v.push(entry("😜", "winking face with tongue", kw3("tongue", "wink", "silly")));
        v.push(entry("🤪", "zany face", kw3("crazy", "silly", "wild")));
        v.push(entry("😝", "squinting face with tongue", kw1("tongue")));
        v.push(entry("🤑", "money-mouth face", kw2("money", "rich")));
        v.push(entry("🤗", "hugging face", kw1("hug")));
        v.push(entry("🤭", "face with hand over mouth", kw2("oops", "shy")));
        v.push(entry("🤫", "shushing face", kw3("quiet", "shh", "secret")));
        v.push(entry("🤔", "thinking face", kw2("think", "hmm")));
        v.push(entry("🤐", "zipper-mouth face", kw2("quiet", "zip")));
        v.push(entry("🤨", "face with raised eyebrow", kw2("skeptical", "doubt")));
        v.push(entry("😐", "neutral face", kw2("neutral", "meh")));
        v.push(entry("😑", "expressionless face", kw2("blank", "meh")));
        v.push(entry("😶", "face without mouth", kw2("silent", "speechless")));
        v.push(entry("😏", "smirking face", kw1("smirk")));
        v.push(entry("😒", "unamused face", kw2("unamused", "meh")));
        v.push(entry("🙄", "face with rolling eyes", kw2("eyeroll", "whatever")));
        v.push(entry("😬", "grimacing face", kw2("grimace", "awkward")));
        v.push(entry("🤥", "lying face", kw2("lie", "pinocchio")));
        v.push(entry("😌", "relieved face", kw2("relieved", "peaceful")));
        v.push(entry("😔", "pensive face", kw2("sad", "pensive")));
        v.push(entry("😪", "sleepy face", kw2("sleepy", "tired")));
        v.push(entry("🤤", "drooling face", kw2("drool", "yum")));
        v.push(entry("😴", "sleeping face", kw2("sleep", "zzz")));
        v.push(entry("😷", "face with medical mask", kw2("mask", "sick")));
        v.push(entry("🤒", "face with thermometer", kw2("sick", "fever")));
        v.push(entry("🤕", "face with head-bandage", kw2("hurt", "injured")));
        v.push(entry("🤢", "nauseated face", kw2("sick", "green")));
        v.push(entry("🤮", "face vomiting", kw2("sick", "vomit")));
        v.push(entry("🤧", "sneezing face", kw2("sneeze", "sick")));
        v.push(entry("🥵", "hot face", kw2("hot", "heat")));
        v.push(entry("🥶", "cold face", kw2("cold", "freeze")));
        v.push(entry("🥴", "woozy face", kw2("drunk", "dizzy")));
        v.push(entry("😵", "dizzy face", kw1("dizzy")));
        v.push(entry("🤯", "exploding head", kw2("mind blown", "shocked")));
        v.push(entry("🤠", "cowboy hat face", kw1("cowboy")));
        v.push(entry("🥳", "partying face", kw2("party", "celebrate")));
        v.push(entry("🥸", "disguised face", kw2("disguise", "incognito")));
        v.push(entry("😎", "smiling face with sunglasses", kw2("cool", "sunglasses")));
        v.push(entry("🤓", "nerd face", kw2("nerd", "geek")));
        v.push(entry("🧐", "face with monocle", kw2("monocle", "fancy")));
        v.push(entry("😕", "confused face", kw1("confused")));
        v.push(entry("😟", "worried face", kw1("worried")));
        v.push(entry("🙁", "slightly frowning face", kw2("frown", "sad")));
        v.push(entry("☹️", "frowning face", kw2("frown", "sad")));
        v.push(entry("😮", "face with open mouth", kw2("surprised", "wow")));
        v.push(entry("😯", "hushed face", kw2("surprised", "hushed")));
        v.push(entry("😲", "astonished face", kw2("astonished", "shocked")));
        v.push(entry("😳", "flushed face", kw2("blush", "embarrassed")));
        v.push(entry("🥺", "pleading face", kw3("puppy", "please", "beg")));
        v.push(entry("😦", "frowning face with open mouth", kw1("frown")));
        v.push(entry("😧", "anguished face", kw1("anguished")));
        v.push(entry("😨", "fearful face", kw2("fear", "scared")));
        v.push(entry("😰", "anxious face with sweat", kw2("anxious", "nervous")));
        v.push(entry("😥", "sad but relieved face", kw2("sad", "relieved")));
        v.push(entry("😢", "crying face", kw2("cry", "sad")));
        v.push(entry("😭", "loudly crying face", kw3("cry", "sob", "sad")));
        v.push(entry("😱", "face screaming in fear", kw3("scream", "fear", "omg")));
        v.push(entry("😖", "confounded face", kw1("confounded")));
        v.push(entry("😣", "persevering face", kw1("persevere")));
        v.push(entry("😞", "disappointed face", kw2("disappointed", "sad")));
        v.push(entry("😓", "downcast face with sweat", kw1("sweat")));
        v.push(entry("😩", "weary face", kw2("weary", "tired")));
        v.push(entry("😫", "tired face", kw1("tired")));
        v.push(entry("🥱", "yawning face", kw3("yawn", "tired", "bored")));
        v.push(entry("😤", "face with steam from nose", kw2("angry", "frustrated")));
        v.push(entry("😡", "pouting face", kw2("angry", "mad")));
        v.push(entry("😠", "angry face", kw2("angry", "mad")));
        v.push(entry("🤬", "face with symbols on mouth", kw3("swear", "angry", "curse")));
        v.push(entry("😈", "smiling face with horns", kw2("devil", "evil")));
        v.push(entry("👿", "angry face with horns", kw2("devil", "angry")));
        v.push(entry("💀", "skull", kw2("death", "dead")));
        v.push(entry("☠️", "skull and crossbones", kw2("death", "danger")));
        v.push(entry("💩", "pile of poo", kw2("poop", "crap")));
        v.push(entry("🤡", "clown face", kw1("clown")));
        v.push(entry("👹", "ogre", kw2("monster", "ogre")));
        v.push(entry("👺", "goblin", kw2("monster", "goblin")));
        v.push(entry("👻", "ghost", kw2("ghost", "boo")));
        v.push(entry("👽", "alien", kw2("alien", "ufo")));
        v.push(entry("👾", "alien monster", kw2("alien", "game")));
        v.push(entry("🤖", "robot", kw2("robot", "bot")));
        v.push(entry("👋", "waving hand", kw3("wave", "hello", "bye")));
        v.push(entry("🤚", "raised back of hand", kw1("hand")));
        v.push(entry("🖐️", "hand with fingers splayed", kw2("hand", "five")));
        v.push(entry("✋", "raised hand", kw3("stop", "hand", "high five")));
        v.push(entry("🖖", "vulcan salute", kw2("spock", "vulcan")));
        v.push(entry("👌", "OK hand", kw2("ok", "perfect")));
        v.push(entry("🤌", "pinched fingers", kw2("italian", "chef")));
        v.push(entry("🤏", "pinching hand", kw2("small", "tiny")));
        v.push(entry("✌️", "victory hand", kw2("peace", "victory")));
        v.push(entry("🤞", "crossed fingers", kw2("luck", "hope")));
        v.push(entry("🤟", "love-you gesture", kw2("love", "rock")));
        v.push(entry("🤘", "sign of the horns", kw2("rock", "metal")));
        v.push(entry("🤙", "call me hand", kw2("call", "shaka")));
        v.push(entry("👈", "backhand index pointing left", kw2("left", "point")));
        v.push(entry("👉", "backhand index pointing right", kw2("right", "point")));
        v.push(entry("👆", "backhand index pointing up", kw2("up", "point")));
        v.push(entry("🖕", "middle finger", kw2("finger", "rude")));
        v.push(entry("👇", "backhand index pointing down", kw2("down", "point")));
        v.push(entry("☝️", "index pointing up", kw2("up", "point")));
        v.push(entry("👍", "thumbs up", kw3("like", "yes", "good")));
        v.push(entry("👎", "thumbs down", kw3("dislike", "no", "bad")));
        v.push(entry("✊", "raised fist", kw2("fist", "power")));
        v.push(entry("👊", "oncoming fist", kw2("punch", "fist")));
        v.push(entry("🤛", "left-facing fist", kw1("fist")));
        v.push(entry("🤜", "right-facing fist", kw1("fist")));
        v.push(entry("👏", "clapping hands", kw2("clap", "applause")));
        v.push(entry("🙌", "raising hands", kw2("celebrate", "hooray")));
        v.push(entry("👐", "open hands", kw1("hands")));
        v.push(entry("🤲", "palms up together", kw1("hands")));
        v.push(entry("🤝", "handshake", kw2("deal", "agreement")));
        v.push(entry("🙏", "folded hands", kw3("pray", "please", "thanks")));
        v.push(entry("✍️", "writing hand", kw1("write")));
        v.push(entry("💪", "flexed biceps", kw2("muscle", "strong")));
        v.push(entry("❤️", "red heart", kw2("love", "heart")));
        v.push(entry("🧡", "orange heart", kw1("heart")));
        v.push(entry("💛", "yellow heart", kw1("heart")));
        v.push(entry("💚", "green heart", kw1("heart")));
        v.push(entry("💙", "blue heart", kw1("heart")));
        v.push(entry("💜", "purple heart", kw1("heart")));
        v.push(entry("🖤", "black heart", kw1("heart")));
        v.push(entry("🤍", "white heart", kw1("heart")));
        v.push(entry("🤎", "brown heart", kw1("heart")));
        v.push(entry("💔", "broken heart", kw2("heartbreak", "sad")));
        v.push(entry("💕", "two hearts", kw2("love", "hearts")));
        v.push(entry("💞", "revolving hearts", kw2("love", "hearts")));
        v.push(entry("💓", "beating heart", kw2("love", "heart")));
        v.push(entry("💗", "growing heart", kw2("love", "heart")));
        v.push(entry("💖", "sparkling heart", kw2("love", "heart")));
        v.push(entry("💘", "heart with arrow", kw2("love", "cupid")));
        v.push(entry("💝", "heart with ribbon", kw2("love", "gift")));
        v.push(entry("🔥", "fire", kw3("hot", "lit", "flame")));
        v.push(entry("✨", "sparkles", kw2("magic", "shine")));
        v.push(entry("⭐", "star", kw1("star")));
        v.push(entry("🌟", "glowing star", kw2("star", "shine")));
        v.push(entry("💫", "dizzy", kw2("star", "dizzy")));
        v.push(entry("💯", "hundred points", kw2("100", "perfect")));
        v.push(entry("💢", "anger symbol", kw1("angry")));
        v.push(entry("💥", "collision", kw2("boom", "explosion")));
        v.push(entry("💦", "sweat droplets", kw2("water", "sweat")));
        v.push(entry("💨", "dashing away", kw2("fast", "wind")));
        v.push(entry("🕳️", "hole", kw1("hole")));
        v.push(entry("💣", "bomb", kw1("bomb")));
        v.push(entry("💬", "speech balloon", kw2("chat", "talk")));
        v.push(entry("👁️‍🗨️", "eye in speech bubble", kw1("witness")));
        v.push(entry("🗨️", "left speech bubble", kw1("talk")));
        v.push(entry("🗯️", "right anger bubble", kw1("angry")));
        v.push(entry("💭", "thought balloon", kw1("think")));
        v.push(entry("💤", "zzz", kw2("sleep", "tired")));
        v.push(entry("✅", "check mark button", kw3("check", "done", "yes")));
        v.push(entry("❌", "cross mark", kw3("no", "wrong", "x")));
        v.push(entry("❓", "question mark", kw2("question", "what")));
        v.push(entry("❗", "exclamation mark", kw2("exclamation", "important")));
        v.push(entry("⚠️", "warning", kw2("warning", "caution")));
        v.push(entry("🚫", "prohibited", kw2("no", "forbidden")));
        v.push(entry("⛔", "no entry", kw2("stop", "no")));
        v.push(entry("🔴", "red circle", kw2("red", "circle")));
        v.push(entry("🟠", "orange circle", kw2("orange", "circle")));
        v.push(entry("🟡", "yellow circle", kw2("yellow", "circle")));
        v.push(entry("🟢", "green circle", kw2("green", "circle")));
        v.push(entry("🔵", "blue circle", kw2("blue", "circle")));
        v.push(entry("🟣", "purple circle", kw2("purple", "circle")));
        v.push(entry("⚫", "black circle", kw2("black", "circle")));
        v.push(entry("⚪", "white circle", kw2("white", "circle")));
        EmojiManager { emojis: v }
    }

    /// The items answering a query: one per matching entry, the emoji as
    /// the name and its description alongside.
    pub fn get_items(&self, query: &str) -> (r: Vec<Item>)
        ensures
            ({
                let f = filtered_emojis(self.emojis@, lower_seq(query@));
                &&& r@.len() == f.len()
                &&& forall|k: int|
                    0 <= k < f.len() ==> (#[trigger] r@[k]).name@ == f[k].emoji@
                        && r@[k].item_type == ItemType::Emoji && (r@[k].description matches Some(
                        d,
                    ) && d@ == f[k].name@) && r@[k].id@ == "emoji:"@ + f[k].emoji@
            }),
    {
        let qc = to_chars(query);
        let ql = to_lower_chars(&qc);
        let qlen = ql.len();
        let n: usize = self.emojis.len();
        let mut out: Vec<Item> = Vec::new();
        let mut i: usize = 0;
        while i < n
            invariant
                i <= n,
                n == self.emojis@.len(),
                ql@ == lower_seq(query@),
                ({
                    let f = filtered_emojis(self.emojis@.subrange(0, i as int), ql@);
                    &&& out@.len() == f.len()
                    &&& forall|k: int|
                        0 <= k < f.len() ==> (#[trigger] out@[k]).name@ == f[k].emoji@
                            && out@[k].item_type == ItemType::Emoji && (out@[k].description
                            matches Some(d) && d@ == f[k].name@) && out@[k].id@ == "emoji:"@
                            + f[k].emoji@
                }),
            decreases n - i,
        {
            let e = &self.emojis[i];
            let ghost ee = self.emojis@[i as int];
            let mut hit: bool = ql.len() == 0;
            if !hit {
                let nm = to_chars(e.name.as_str());
                if contains_chars(&nm, &ql) {
                    hit = true;
                }
            }
            if !hit {
                let m: usize = e.keywords.len();
                let mut k: usize = 0;
                while k < m && !hit
                    invariant
                        k <= m,
                        m == ee.keywords@.len(),
                        e.keywords@ == ee.keywords@,
                        ql@ == lower_seq(query@),
                        !hit ==> forall|t: int|
                            0 <= t < k ==> !contains_seq(ee.keywords@[t]@, ql@),
                        hit ==> exists|t: int|
                            0 <= t < ee.keywords@.len() && contains_seq(ee.keywords@[t]@, ql@),
                    decreases m - k, (if hit { 0int } else { 1int }),
                {
                    let kwc = to_chars(e.keywords[k].as_str());
                    if contains_chars(&kwc, &ql) {
                        hit = true;
                    } else {
                        k = k + 1;
                    }
                }
            }
            proof {
                assert(hit == emoji_matches(self.emojis@[i as int], ql@));
                assert(self.emojis@.subrange(0, i + 1).drop_last() =~= self.emojis@.subrange(
                    0,
                    i as int,
                ));
                assert(self.emojis@.subrange(0, i + 1).last() == self.emojis@[i as int]);
            }
            if hit {
                proof {
                    reveal_strlit("emoji:");
                }
                let id = String::from_str("emoji:").concat(e.emoji.as_str());
                let name = e.emoji.clone();
                let item = Item::new(id, name, ItemType::Emoji).with_description(e.name.clone());
                out.push(item);
            }
            i = i + 1;
        }
        proof {
            assert(self.emojis@.subrange(0, n as int) =~= self.emojis@);
        }
        out
    }
}

} // verus!