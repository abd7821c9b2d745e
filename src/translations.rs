use vstd::prelude::*;

use crate::locale::{get_system_locale, locale_from_hints, locale_of, Locale};

verus! {

/// The platform the program was built for; the autostart label names it.
#[derive(Clone, Copy, Debug, PartialEq, Eq, Structural)]
pub enum Platform {
    Windows,
    MacOs,
    Linux,
    Other,
}

/// One message key with its Portuguese and English text.
pub struct Entry {
    pub key: String,
    pub pt_br: String,
    pub en: String,
}

/// A row of the table as plain text: key, Portuguese text, English text.
pub type Row = (Seq<char>, Seq<char>, Seq<char>);

/// The table of translated messages.
pub struct Translations {
    pub entries: Vec<Entry>,
}

pub open spec fn row_of(e: Entry) -> Row {
    (e.key@, e.pt_br@, e.en@)
}

impl View for Translations {
    type V = Seq<Row>;

    open spec fn view(&self) -> Seq<Row> {
        self.entries@.map_values(|e: Entry| row_of(e))
    }
}

/// The rows that hold the autostart label on the given platform.
pub open spec fn autostart_rows(platform: Platform) -> Seq<Row> {
    match platform {
        Platform::Windows => seq![("menu.autostart"@, "Iniciar com Windows"@, "Start with Windows"@)],
        Platform::MacOs => seq![("menu.autostart"@, "Iniciar com macOS"@, "Start with macOS"@)],
        Platform::Linux => seq![("menu.autostart"@, "Iniciar com o sistema"@, "Start with system"@)],
        Platform::Other => Seq::empty(),
    }
}

/// The messages of the program, for a build on the given platform.
pub open spec fn table_of(platform: Platform) -> Seq<Row> {
    seq![("menu.config_dir"@, "Configurar diretório..."@, "Configure directory..."@)]
        + autostart_rows(platform)
        + seq![
        ("menu.mute_sound"@, "Mutar som"@, "Mute sound"@),
        ("menu.quit"@, "Sair do AuraNote"@, "Quit AuraNote"@),
        ("error.monitor_size"@, "Não foi possível obter o tamanho do monitor"@, "Could not get monitor size"@),
        ("error.icon_load"@, "Não foi possível carregar o ícone padrão"@, "Could not load default icon"@),
        ("error.shortcut"@, "Erro ao registrar atalho"@, "Error registering shortcut"@),
        ("file.note_prefix"@, "nota"@, "note"@),
    ]
}

/// Every key occurs in one row only, as in a map from keys to texts.
pub open spec fn keys_unique(tbl: Seq<Row>) -> bool {
    forall|i: int, j: int| 0 <= i < j < tbl.len() ==> tbl[i].0 != tbl[j].0
}

impl Translations {
    pub open spec fn wf(&self) -> bool {
        keys_unique(self@)
    }
}

/// The built table maps each key to one row.
proof fn lemma_table_keys_unique(platform: Platform)
    ensures
        keys_unique(table_of(platform)),
{
    let tbl = table_of(platform);
    assert forall|i: int, j: int| 0 <= i < j < tbl.len() implies tbl[i].0 != tbl[j].0 by {
        reveal_strlit("menu.config_dir");
        reveal_strlit("menu.autostart");
        reveal_strlit("menu.mute_sound");
        reveal_strlit("menu.quit");
        reveal_strlit("error.monitor_size");
        reveal_strlit("error.icon_load");
        reveal_strlit("error.shortcut");
        reveal_strlit("file.note_prefix");
        assert(tbl[i].0.len() != tbl[j].0.len() || tbl[i].0[0] != tbl[j].0[0] || tbl[i].0[5]
            != tbl[j].0[5] || tbl[i].0[6] != tbl[j].0[6]);
    };
}

/// The text of a row in a locale.
pub open spec fn text_in(row: Row, locale: Locale) -> Seq<char> {
    match locale {
        Locale::PtBR => row.1,
        Locale::En => row.2,
    }
}

/// Index `i` is the first row of `tbl` whose key is `key`.
pub open spec fn first_row(tbl: Seq<Row>, key: Seq<char>, i: int) -> bool {
    0 <= i < tbl.len() && tbl[i].0 == key && forall|j: int| 0 <= j < i ==> tbl[j].0 != key
}

/// The table holds a row for `key`.
pub open spec fn has_key(tbl: Seq<Row>, key: Seq<char>) -> bool {
    exists|i: int| 0 <= i < tbl.len() && tbl[i].0 == key
}

/// What a lookup of `key` gives: the text of its row in the locale, or the
/// key itself where the table has no row for it.
pub open spec fn translate_in(tbl: Seq<Row>, locale: Locale, key: Seq<char>) -> Seq<char> {
    if exists|i: int| first_row(tbl, key, i) {
        text_in(tbl[choose|i: int| first_row(tbl, key, i)], locale)
    } else {
        key
    }
}

fn entry(key: &str, pt_br: &str, en: &str) -> (r: Entry)
    ensures
        row_of(r) == (key@, pt_br@, en@),
{
    Entry { key: String::from_str(key), pt_br: String::from_str(pt_br), en: String::from_str(en) }
}

/// Builds the table of messages for a build on `platform`.
pub fn get_translations(platform: Platform) -> (r: Translations)
    ensures
        r@ == table_of(platform),
        r.wf(),
{
    proof {
        lemma_table_keys_unique(platform);
    }
    let mut entries: Vec<Entry> = Vec::new();
    entries.push(entry("menu.config_dir", "Configurar diretório...", "Configure directory..."));
    match platform {
        Platform::Windows => {
            entries.push(entry("menu.autostart", "Iniciar com Windows", "Start with Windows"));
        },
        Platform::MacOs => {
            entries.push(entry("menu.autostart", "Iniciar com macOS", "Start with macOS"));
        },
        Platform::Linux => {
            entries.push(entry("menu.autostart", "Iniciar com o sistema", "Start with system"));
        },
        Platform::Other => {},
    }
    entries.push(entry("menu.mute_sound", "Mutar som", "Mute sound"));
    entries.push(entry("menu.quit", "Sair do AuraNote", "Quit AuraNote"));
    entries.push(
        entry(
            "error.monitor_size",
            "Não foi possível obter o tamanho do monitor",
            "Could not get monitor size",
        ),
    );
    entries.push(
        entry(
            "error.icon_load",
            "Não foi possível carregar o ícone padrão",
            "Could not load default icon",
        ),
    );
    entries.push(entry("error.shortcut", "Erro ao registrar atalho", "Error registering shortcut"));
    entries.push(entry("file.note_prefix", "nota", "note"));
    let r = Translations { entries };
    assert(r@ =~= table_of(platform));
    r
}

/// The active locale together with the table of messages. A locale
/// override replaces the locale; the table stays as it was built.
pub struct I18n {
    pub locale: Locale,
    pub translations: Translations,
}

impl I18n {
    /// What `t` gives for `key`.
    pub open spec fn text(&self, key: Seq<char>) -> Seq<char> {
        translate_in(self.translations@, self.locale, key)
    }

    pub fn new(locale: Locale, platform: Platform) -> (r: I18n)
        ensures
            r.locale == locale,
            r.translations@ == table_of(platform),
            r.translations.wf(),
    {
        I18n { locale, translations: get_translations(platform) }
    }

    /// Switches to the locale that `locale_str` names.
    pub fn set_locale_from_str(&mut self, locale_str: &str)
        ensures
            final(self).locale == locale_of(locale_str@),
            final(self).translations@ == old(self).translations@,
            final(self).translations.wf() == old(self).translations.wf(),
    {
        self.locale = Locale::from_str(locale_str);
    }

    /// The text of `key` in the active locale, or `key` itself where the
    /// table has no row for it.
    pub fn t(&self, key: &str) -> (r: String)
        ensures
            r@ == self.text(key@),
    {
        let k = String::from_str(key);
        let tbl = &self.translations.entries;
        let n = tbl.len();
        let mut i: usize = 0;
        while i < n
            invariant
                n == tbl@.len(),
                i <= n,
                k@ == key@,
                self.translations@ == tbl@.map_values(|e: Entry| row_of(e)),
                forall|j: int| 0 <= j < i ==> self.translations@[j].0 != key@,
            decreases n - i,
        {
            let e = &tbl[i];
            if e.key == k {
                assert(first_row(self.translations@, key@, i as int));
                proof {
                    let c = choose|c: int| first_row(self.translations@, key@, c);
                    if c < i {
                        assert(self.translations@[c].0 != key@);
                    }
                    if c > i {
                        assert(self.translations@[i as int].0 != key@);
                    }
                    assert(c == i);
                }
                return match self.locale {
                    Locale::PtBR => e.pt_br.clone(),
                    Locale::En => e.en.clone(),
                };
            }
            i = i + 1;
        }
        k
    }
}

/// Resolves the locale from the environment's hints and builds the table.
pub fn init_locale(hints: &Vec<Option<String>>, platform: Platform) -> (r: I18n)
    ensures
        r.locale == locale_from_hints(hints@),
        r.translations@ == table_of(platform),
        r.translations.wf(),
{
    I18n::new(get_system_locale(hints), platform)
}

/// In English every key of the table has a text other than the key itself,
/// and any locale hint that does not name Portuguese gives the English text.
pub proof fn lemma_known_keys_are_translated(platform: Platform, key: Seq<char>, hint: Seq<char>)
    requires
        has_key(table_of(platform), key),
        locale_of(hint) == Locale::En,
    ensures
        translate_in(table_of(platform), Locale::En, key) != key,
        translate_in(table_of(platform), locale_of(hint), key) == translate_in(
            table_of(platform),
            Locale::En,
            key,
        ),
{
    let tbl = table_of(platform);
    let i = choose|i: int| 0 <= i < tbl.len() && tbl[i].0 == key;
    assert forall|k: int| 0 <= k < tbl.len() implies tbl[k].2 != tbl[k].0 by {
        reveal_strlit("menu.config_dir");
        reveal_strlit("Configure directory...");
        reveal_strlit("menu.autostart");
        reveal_strlit("Start with Windows");
        reveal_strlit("Start with macOS");
        reveal_strlit("Start with system");
        reveal_strlit("menu.mute_sound");
        reveal_strlit("Mute sound");
        reveal_strlit("menu.quit");
        reveal_strlit("Quit AuraNote");
        reveal_strlit("error.monitor_size");
        reveal_strlit("Could not get monitor size");
        reveal_strlit("error.icon_load");
        reveal_strlit("Could not load default icon");
        reveal_strlit("error.shortcut");
        reveal_strlit("Error registering shortcut");
        reveal_strlit("file.note_prefix");
        reveal_strlit("note");
        assert(tbl[k].2[0] != tbl[k].0[0]);
    };
    lemma_first_row_exists(tbl, key, i);
}

/// A key that the table holds has a first row.
proof fn lemma_first_row_exists(tbl: Seq<Row>, key: Seq<char>, i: int)
    requires
        0 <= i < tbl.len(),
        tbl[i].0 == key,
    ensures
        exists|c: int| first_row(tbl, key, c),
    decreases i,
{
    if !first_row(tbl, key, i) {
        let j = choose|j: int| 0 <= j < i && tbl[j].0 == key;
        lemma_first_row_exists(tbl, key, j);
    }
}

/// In a table whose keys are unique, looking up a row's key gives that row's text.
pub proof fn lemma_row_key_gives_row_text(tbl: Seq<Row>, locale: Locale, i: int)
    requires
        keys_unique(tbl),
        0 <= i < tbl.len(),
    ensures
        translate_in(tbl, locale, tbl[i].0) == text_in(tbl[i], locale),
{
    assert(first_row(tbl, tbl[i].0, i));
    let c = choose|c: int| first_row(tbl, tbl[i].0, c);
    if c != i {
        if c < i {
            assert(tbl[c].0 != tbl[i].0);
        } else {
            assert(tbl[i].0 != tbl[c].0);
        }
    }
}

/// A key that the table does not hold is given back unchanged, in every locale.
pub proof fn lemma_unknown_key_is_returned(tbl: Seq<Row>, locale: Locale, key: Seq<char>)
    requires
        !has_key(tbl, key),
    ensures
        translate_in(tbl, locale, key) == key,
{
}

} // verus!
