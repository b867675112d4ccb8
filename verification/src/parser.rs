//! The command line of the project's task runner.
use vstd::prelude::*;
use vstd::string::*;

verus! {

/// A UTF-8 file system path of the `camino` crate, carried through unchanged.
#[verifier::external_type_specification]
#[verifier::external_body]
pub struct ExUtf8PathBuf(camino::Utf8PathBuf);

/// A parsed URL of the `url` crate, carried through unchanged.
#[verifier::external_type_specification]
#[verifier::external_body]
pub struct ExUrl(url::Url);

/// The task runner's command line.
pub struct CliTask {
    pub sub: CliSub,
}

/// The task runner's subcommands.
pub enum CliSub {
    /// Generate typeshare.
    Typeshare(CliTypeshare),
    /// Generate the OpenAPI spec.
    Swagger(CliSwagger),
    /// Generate typeshare and the OpenAPI spec.
    Types(CliTypes),
    /// Send stats to bencher.dev.
    Stats(CliStats),
    /// Prompt an LLM.
    Prompt(CliPrompt),
    /// Prompt an LLM to translate.
    Translate(CliTranslate),
    /// Run tests against the Fly.io deployment.
    FlyTest(CliFlyTest),
    /// Run tests against the Netlify deployment.
    NetlifyTest(CliNetlifyTest),
    /// Generate release notes.
    ReleaseNotes(CliReleaseNotes),
    /// Send a notification.
    Notify(CliNotify),
}

pub struct CliTypeshare {}

pub struct CliSwagger {}

pub struct CliTypes {}

pub struct CliStats {
    /// Stats JSON.
    pub stats: String,
}

pub struct CliPrompt {
    /// Text prompt.
    pub prompt: String,
}

pub struct CliTranslate {
    /// Input file paths, relative to `services/console/src/`.
    pub input_path: Vec<camino::Utf8PathBuf>,
    /// Target languages.
    pub lang: Option<Vec<CliLanguage>>,
    /// Output file path.
    pub output_path: Option<camino::Utf8PathBuf>,
}

/// A language to translate into.
#[derive(Debug, Clone, Copy, PartialEq, Eq, Structural)]
pub enum CliLanguage {
    German,
    Spanish,
    French,
    Japanese,
    Korean,
    Portuguese,
    Russian,
    Chinese,
}

pub struct CliFlyTest {
    /// Run the development tests.
    pub dev: bool,
}

pub struct CliNetlifyTest {
    /// Run the development tests.
    pub dev: bool,
}

pub struct CliReleaseNotes {
    /// Changelog path.
    pub changelog: Option<camino::Utf8PathBuf>,
    /// Output file path.
    pub path: Option<camino::Utf8PathBuf>,
}

pub struct CliNotify {
    pub message: String,
    pub topic: Option<String>,
    pub title: Option<String>,
    pub tag: Option<String>,
    pub priority: Option<u8>,
    pub click: Option<url::Url>,
    pub attach: Option<url::Url>,
}

/// A language's name on the command line: its variant's name in snake case.
pub open spec fn language_name(l: CliLanguage) -> Seq<char> {
    match l {
        CliLanguage::German => "german"@,
        CliLanguage::Spanish => "spanish"@,
        CliLanguage::French => "french"@,
        CliLanguage::Japanese => "japanese"@,
        CliLanguage::Korean => "korean"@,
        CliLanguage::Portuguese => "portuguese"@,
        CliLanguage::Russian => "russian"@,
        CliLanguage::Chinese => "chinese"@,
    }
}

/// A language's alias on the command line: its two-letter code.
pub open spec fn language_alias(l: CliLanguage) -> Seq<char> {
    match l {
        CliLanguage::German => "de"@,
        CliLanguage::Spanish => "es"@,
        CliLanguage::French => "fr"@,
        CliLanguage::Japanese => "ja"@,
        CliLanguage::Korean => "ko"@,
        CliLanguage::Portuguese => "pt"@,
        CliLanguage::Russian => "ru"@,
        CliLanguage::Chinese => "zh"@,
    }
}

/// The language that `text` names on the command line, by name or by alias.
pub open spec fn language_named(text: Seq<char>) -> Option<CliLanguage> {
    if text == "german"@ || text == "de"@ {
        Some(CliLanguage::German)
    } else if text == "spanish"@ || text == "es"@ {
        Some(CliLanguage::Spanish)
    } else if text == "french"@ || text == "fr"@ {
        Some(CliLanguage::French)
    } else if text == "japanese"@ || text == "ja"@ {
        Some(CliLanguage::Japanese)
    } else if text == "korean"@ || text == "ko"@ {
        Some(CliLanguage::Korean)
    } else if text == "portuguese"@ || text == "pt"@ {
        Some(CliLanguage::Portuguese)
    } else if text == "russian"@ || text == "ru"@ {
        Some(CliLanguage::Russian)
    } else if text == "chinese"@ || text == "zh"@ {
        Some(CliLanguage::Chinese)
    } else {
        None
    }
}

/// Whether two texts are the same, character by character.
fn same_text(a: &str, b: &str) -> (same: bool)
    ensures
        same == (a@ == b@),
{
    let n = a.unicode_len();
    if n != b.unicode_len() {
        return false;
    }
    let mut i: usize = 0;
    while i < n
        invariant
            n == a@.len(),
            n == b@.len(),
            i <= n,
            forall|j: int| 0 <= j < i ==> a@[j] == b@[j],
        decreases n - i,
    {
        if a.get_char(i) != b.get_char(i) {
            return false;
        }
        i = i + 1;
    }
    assert(a@ =~= b@);
    true
}

impl CliLanguage {
    /// The language's name on the command line.
    pub fn name(&self) -> (name: &'static str)
        ensures
            name@ == language_name(*self),
    {
        match self {
            CliLanguage::German => "german",
            CliLanguage::Spanish => "spanish",
            CliLanguage::French => "french",
            CliLanguage::Japanese => "japanese",
            CliLanguage::Korean => "korean",
            CliLanguage::Portuguese => "portuguese",
            CliLanguage::Russian => "russian",
            CliLanguage::Chinese => "chinese",
        }
    }

    /// The language's two-letter alias on the command line.
    pub fn alias(&self) -> (alias: &'static str)
        ensures
            alias@ == language_alias(*self),
    {
        match self {
            CliLanguage::German => "de",
            CliLanguage::Spanish => "es",
            CliLanguage::French => "fr",
            CliLanguage::Japanese => "ja",
            CliLanguage::Korean => "ko",
            CliLanguage::Portuguese => "pt",
            CliLanguage::Russian => "ru",
            CliLanguage::Chinese => "zh",
        }
    }

    /// The language that `text` names, by name or by alias, if any.
    pub fn from_text(text: &str) -> (language: Option<CliLanguage>)
        ensures
            language == language_named(text@),
    {
        if same_text(text, "german") || same_text(text, "de") {
            Some(CliLanguage::German)
        } else if same_text(text, "spanish") || same_text(text, "es") {
            Some(CliLanguage::Spanish)
        } else if same_text(text, "french") || same_text(text, "fr") {
            Some(CliLanguage::French)
        } else if same_text(text, "japanese") || same_text(text, "ja") {
            Some(CliLanguage::Japanese)
        } else if same_text(text, "korean") || same_text(text, "ko") {
            Some(CliLanguage::Korean)
        } else if same_text(text, "portuguese") || same_text(text, "pt") {
            Some(CliLanguage::Portuguese)
        } else if same_text(text, "russian") || same_text(text, "ru") {
            Some(CliLanguage::Russian)
        } else if same_text(text, "chinese") || same_text(text, "zh") {
            Some(CliLanguage::Chinese)
        } else {
            None
        }
    }
}

/// Every language's name and alias select that language and no other.
pub proof fn law_language_names_select_their_language(l: CliLanguage)
    ensures
        language_named(language_name(l)) == Some(l),
        language_named(language_alias(l)) == Some(l),
{
    reveal_strlit("german");
    reveal_strlit("de");
    reveal_strlit("spanish");
    reveal_strlit("es");
    reveal_strlit("french");
    reveal_strlit("fr");
    reveal_strlit("japanese");
    reveal_strlit("ja");
    reveal_strlit("korean");
    reveal_strlit("ko");
    reveal_strlit("portuguese");
    reveal_strlit("pt");
    reveal_strlit("russian");
    reveal_strlit("ru");
    reveal_strlit("chinese");
    reveal_strlit("zh");
    // The names start with distinct letters, and so do the aliases.
    assert("german"@[0] == 'g' && "spanish"@[0] == 's' && "french"@[0] == 'f' && "japanese"@[0] == 'j');
    assert("korean"@[0] == 'k' && "portuguese"@[0] == 'p' && "russian"@[0] == 'r' && "chinese"@[0] == 'c');
    assert("de"@[0] == 'd' && "es"@[0] == 'e' && "fr"@[0] == 'f' && "ja"@[0] == 'j');
    assert("ko"@[0] == 'k' && "pt"@[0] == 'p' && "ru"@[0] == 'r' && "zh"@[0] == 'z');
}

} // verus!
