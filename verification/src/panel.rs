//! What the tray panel shows: the status it derives from the worker's
//! updates, its colours, icons and text rows.
use vstd::prelude::*;
use crate::limits::{UsageSnapshot, SnapshotModel};
use crate::session::WorkerUpdate;
use crate::clock::{format_datetime, chrono_represents, local_day_time_text};
use crate::text::{
    contains, contains_text, lowercase, to_lowercase, decimal, decimal_text, is_ascii_text, ascii_lower, ascii_upper,
    lemma_ascii_case_folds,
};

verus! {

/// The state the panel reports.
#[derive(Clone, Copy, Debug, PartialEq, Eq, Structural)]
pub enum UiStatus {
    Loading,
    Refreshing,
    Ready,
    Exhausted,
    AccountRequired,
    SubscriptionRequired,
    CodexMissing,
    Error,
}

pub open spec fn title_model(status: UiStatus) -> Seq<char> {
    match status {
        UiStatus::Loading => "Загрузка"@,
        UiStatus::Refreshing => "Обновление"@,
        UiStatus::Ready => "Готово"@,
        UiStatus::Exhausted => "Лимит исчерпан"@,
        UiStatus::AccountRequired => "Требуется вход"@,
        UiStatus::SubscriptionRequired => "Нет активного доступа"@,
        UiStatus::CodexMissing => "Codex не найден"@,
        UiStatus::Error => "Ошибка Codex"@,
    }
}

/// Each status has its own headline: loading shows `Загрузка`, refreshing
/// `Обновление`, ready `Готово`, an exhausted quota `Лимит исчерпан`, a
/// missing sign-in `Требуется вход`, a missing subscription `Нет активного
/// доступа`, a missing CLI `Codex не найден`, any other failure `Ошибка
/// Codex`; no two statuses share a headline.
pub proof fn lemma_status_titles(a: UiStatus, b: UiStatus)
    ensures
        title_model(UiStatus::Loading) == "Загрузка"@,
        title_model(UiStatus::Refreshing) == "Обновление"@,
        title_model(UiStatus::Ready) == "Готово"@,
        title_model(UiStatus::Exhausted) == "Лимит исчерпан"@,
        title_model(UiStatus::AccountRequired) == "Требуется вход"@,
        title_model(UiStatus::SubscriptionRequired) == "Нет активного доступа"@,
        title_model(UiStatus::CodexMissing) == "Codex не найден"@,
        title_model(UiStatus::Error) == "Ошибка Codex"@,
        a != b ==> title_model(a) != title_model(b),
{
    reveal_strlit("Загрузка");
    reveal_strlit("Обновление");
    reveal_strlit("Готово");
    reveal_strlit("Лимит исчерпан");
    reveal_strlit("Требуется вход");
    reveal_strlit("Нет активного доступа");
    reveal_strlit("Codex не найден");
    reveal_strlit("Ошибка Codex");
    assert("Загрузка"@ =~= seq!['З', 'а', 'г', 'р', 'у', 'з', 'к', 'а']);
    assert("Обновление"@ =~= seq!['О', 'б', 'н', 'о', 'в', 'л', 'е', 'н', 'и', 'е']);
    assert("Готово"@ =~= seq!['Г', 'о', 'т', 'о', 'в', 'о']);
    assert("Лимит исчерпан"@ =~= seq!['Л', 'и', 'м', 'и', 'т', ' ', 'и', 'с', 'ч', 'е', 'р', 'п', 'а', 'н']);
    assert("Требуется вход"@ =~= seq!['Т', 'р', 'е', 'б', 'у', 'е', 'т', 'с', 'я', ' ', 'в', 'х', 'о', 'д']);
    assert("Нет активного доступа"@ =~= seq!['Н', 'е', 'т', ' ', 'а', 'к', 'т', 'и', 'в', 'н', 'о', 'г', 'о', ' ', 'д', 'о', 'с', 'т', 'у', 'п', 'а']);
    assert("Codex не найден"@ =~= seq!['C', 'o', 'd', 'e', 'x', ' ', 'н', 'е', ' ', 'н', 'а', 'й', 'д', 'е', 'н']);
    assert("Ошибка Codex"@ =~= seq!['О', 'ш', 'и', 'б', 'к', 'а', ' ', 'C', 'o', 'd', 'e', 'x']);
}

/// The headline for a status.
pub fn status_title(status: UiStatus) -> (r: &'static str)
    ensures
        r@ == title_model(status),
{
    match status {
        UiStatus::Loading => "Загрузка",
        UiStatus::Refreshing => "Обновление",
        UiStatus::Ready => "Готово",
        UiStatus::Exhausted => "Лимит исчерпан",
        UiStatus::AccountRequired => "Требуется вход",
        UiStatus::SubscriptionRequired => "Нет активного доступа",
        UiStatus::CodexMissing => "Codex не найден",
        UiStatus::Error => "Ошибка Codex",
    }
}

// ---------------------------------------------------------------------------
// Colours
// ---------------------------------------------------------------------------

/// A Win32 `COLORREF`: red in the low byte, then green, then blue.
#[derive(Clone, Copy, Debug, PartialEq, Eq, Structural)]
pub struct ColorRef(pub u32);

pub open spec fn rgb_spec(red: u8, green: u8, blue: u8) -> ColorRef {
    ColorRef((red + 256 * green + 65536 * blue) as u32)
}

pub open spec fn red_of(c: ColorRef) -> int {
    (c.0 % 256) as int
}

pub open spec fn green_of(c: ColorRef) -> int {
    ((c.0 / 256) % 256) as int
}

pub open spec fn blue_of(c: ColorRef) -> int {
    ((c.0 / 65536) % 256) as int
}

/// The colour with these channels.
pub fn rgb(red: u8, green: u8, blue: u8) -> (c: ColorRef)
    ensures
        c == rgb_spec(red, green, blue),
{
    let r = red as u32;
    let g = green as u32;
    let b = blue as u32;
    assert(r | (g << 8) | (b << 16) == r + 256 * g + 65536 * b) by (bit_vector)
        requires
            r < 256,
            g < 256,
            b < 256,
    ;
    ColorRef(r | (g << 8) | (b << 16))
}

/// The perceived brightness of a colour, scaled by 1000.
pub open spec fn brightness(c: ColorRef) -> int {
    red_of(c) * 299 + green_of(c) * 587 + blue_of(c) * 114
}

/// Near-black on bright backgrounds, near-white on dark ones.
pub fn contrast_color(background: ColorRef) -> (r: ColorRef)
    ensures
        r == if brightness(background) >= 150_000 {
            rgb_spec(18, 18, 18)
        } else {
            rgb_spec(250, 250, 250)
        },
{
    let c = background.0;
    let red = c & 0xff;
    let green = (c >> 8) & 0xff;
    let blue = (c >> 16) & 0xff;
    assert(red == c % 256 && green == (c / 256) % 256 && blue == (c / 65536) % 256) by (bit_vector)
        requires
            red == c & 0xff,
            green == (c >> 8) & 0xff,
            blue == (c >> 16) & 0xff,
    ;
    if red * 299 + green * 587 + blue * 114 >= 150_000 {
        rgb(18, 18, 18)
    } else {
        rgb(250, 250, 250)
    }
}

pub open spec fn status_color_model(status: UiStatus) -> ColorRef {
    match status {
        UiStatus::Error | UiStatus::Exhausted => rgb_spec(255, 91, 110),
        UiStatus::AccountRequired | UiStatus::SubscriptionRequired | UiStatus::CodexMissing => rgb_spec(
            255,
            181,
            71,
        ),
        UiStatus::Loading | UiStatus::Refreshing => rgb_spec(101, 199, 242),
        UiStatus::Ready => rgb_spec(52, 211, 153),
    }
}

/// The headline colours: red `rgb(255, 91, 110)` exactly for failures and
/// an exhausted quota, amber `rgb(255, 181, 71)` exactly where the user must
/// act (sign in, subscribe, install the CLI), blue `rgb(101, 199, 242)`
/// exactly while loading or refreshing, and green `rgb(52, 211, 153)` only
/// when ready.
pub proof fn lemma_status_colors(status: UiStatus)
    ensures
        status_color_model(status) == rgb_spec(255, 91, 110) <==> (status == UiStatus::Error || status
            == UiStatus::Exhausted),
        status_color_model(status) == rgb_spec(255, 181, 71) <==> (status == UiStatus::AccountRequired
            || status == UiStatus::SubscriptionRequired || status == UiStatus::CodexMissing),
        status_color_model(status) == rgb_spec(101, 199, 242) <==> (status == UiStatus::Loading || status
            == UiStatus::Refreshing),
        status_color_model(status) == rgb_spec(52, 211, 153) <==> status == UiStatus::Ready,
        status_color_model(UiStatus::Exhausted) == status_color_model(UiStatus::Error),
{
}

/// The colour of a status headline: red for failures and an exhausted quota,
/// amber where the user must act, blue while loading, green when ready.
pub fn status_color(status: UiStatus) -> (r: ColorRef)
    ensures
        r == status_color_model(status),
{
    match status {
        UiStatus::Error | UiStatus::Exhausted => rgb(255, 91, 110),
        UiStatus::AccountRequired | UiStatus::SubscriptionRequired | UiStatus::CodexMissing => rgb(
            255,
            181,
            71,
        ),
        UiStatus::Loading | UiStatus::Refreshing => rgb(101, 199, 242),
        UiStatus::Ready => rgb(52, 211, 153),
    }
}

/// The colour of the remaining-quota bar: red at 10% or less, amber at 30% or
/// less, else the Windows accent colour (`accent`, where the system gives
/// one) or Windows blue.
pub fn remaining_color(percent: u32, accent: Option<ColorRef>) -> (r: ColorRef)
    ensures
        r == if percent <= 10 {
            rgb_spec(255, 91, 110)
        } else if percent <= 30 {
            rgb_spec(255, 181, 71)
        } else {
            match accent {
                Some(c) => c,
                None => rgb_spec(0, 120, 212),
            }
        },
{
    if percent <= 10 {
        rgb(255, 91, 110)
    } else if percent <= 30 {
        rgb(255, 181, 71)
    } else {
        match accent {
            Some(c) => c,
            None => rgb(0, 120, 212),
        }
    }
}

/// The accent colour from the `0xAARRGGBB` value that
/// `DwmGetColorizationColor` reports (alpha dropped).
pub fn accent_color(argb: u32) -> (r: ColorRef)
    ensures
        r == rgb_spec(((argb / 65536) % 256) as u8, ((argb / 256) % 256) as u8, (argb % 256) as u8),
{
    let red = (argb >> 16) & 0xff;
    let green = (argb >> 8) & 0xff;
    let blue = argb & 0xff;
    assert(red == (argb / 65536) % 256 && green == (argb / 256) % 256 && blue == argb % 256)
        by (bit_vector)
        requires
            red == (argb >> 16) & 0xff,
            green == (argb >> 8) & 0xff,
            blue == argb & 0xff,
    ;
    rgb(red as u8, green as u8, blue as u8)
}

/// The panel's colours for the current Windows theme.
#[derive(Clone, Copy, Debug, PartialEq, Eq, Structural)]
pub struct SystemPalette {
    pub background: ColorRef,
    pub track: ColorRef,
    pub key: ColorRef,
    pub value: ColorRef,
}

/// The palette for the `AppsUseLightTheme` registry value, where it could be
/// read: light only where the value is present and non-zero.
pub fn system_palette(apps_use_light_theme: Option<u32>) -> (r: SystemPalette)
    ensures
        r == if apps_use_light_theme matches Some(v) && v != 0 {
            SystemPalette {
                background: rgb_spec(243, 243, 243),
                track: rgb_spec(215, 215, 215),
                key: rgb_spec(90, 90, 90),
                value: rgb_spec(24, 24, 24),
            }
        } else {
            SystemPalette {
                background: rgb_spec(32, 32, 32),
                track: rgb_spec(58, 58, 58),
                key: rgb_spec(175, 175, 175),
                value: rgb_spec(245, 245, 245),
            }
        },
{
    let light = match apps_use_light_theme {
        Some(v) => v != 0,
        None => false,
    };
    if light {
        SystemPalette {
            background: rgb(243, 243, 243),
            track: rgb(215, 215, 215),
            key: rgb(90, 90, 90),
            value: rgb(24, 24, 24),
        }
    } else {
        SystemPalette {
            background: rgb(32, 32, 32),
            track: rgb(58, 58, 58),
            key: rgb(175, 175, 175),
            value: rgb(245, 245, 245),
        }
    }
}


// ---------------------------------------------------------------------------
// Status
// ---------------------------------------------------------------------------

/// The status a lower-cased error message points at: the CLI is missing, the
/// user must sign in, the account lacks a subscription, or something else.
pub open spec fn classify_lowered(m: Seq<char>) -> UiStatus {
    if contains_text(m, "не удалось запустить codex"@) || contains_text(m, "codex: program not found"@) {
        UiStatus::CodexMissing
    } else if contains_text(m, "unauthorized"@) || contains_text(m, "not logged"@) || contains_text(
        m,
        "login"@,
    ) || contains_text(m, "auth"@) || contains_text(m, "401"@) || contains_text(m, "вход"@) {
        UiStatus::AccountRequired
    } else if contains_text(m, "subscription"@) || contains_text(m, "billing"@) || contains_text(
        m,
        "payment"@,
    ) || contains_text(m, "paid"@) || contains_text(m, "purchase"@) || contains_text(m, "403"@)
        || contains_text(m, "подпис"@) || contains_text(m, "оплат"@) {
        UiStatus::SubscriptionRequired
    } else {
        UiStatus::Error
    }
}

/// The status an error message points at, case-insensitively.
pub open spec fn classify_model(message: Seq<char>) -> UiStatus {
    classify_lowered(lowercase(message))
}

/// Which words in a lower-cased error message decide its status. A message
/// that names a failed start of codex (`не удалось запустить codex`,
/// `codex: program not found`) means the CLI is missing. Otherwise one that
/// mentions `unauthorized`, `not logged`, `login`, `auth`, `401` or `вход`
/// needs a sign-in. Otherwise one that mentions `subscription`, `billing`,
/// `payment`, `paid`, `purchase`, `403`, `подпис` or `оплат` needs a
/// subscription. Anything else is a plain error.
pub proof fn lemma_classification_words(m: Seq<char>)
    ensures
        contains_text(m, "не удалось запустить codex"@) ==> classify_lowered(m) == UiStatus::CodexMissing,
        contains_text(m, "codex: program not found"@) ==> classify_lowered(m) == UiStatus::CodexMissing,
        !contains_text(m, "не удалось запустить codex"@) && !contains_text(m, "codex: program not found"@)
            ==> {
            &&& contains_text(m, "unauthorized"@) ==> classify_lowered(m) == UiStatus::AccountRequired
            &&& contains_text(m, "not logged"@) ==> classify_lowered(m) == UiStatus::AccountRequired
            &&& contains_text(m, "login"@) ==> classify_lowered(m) == UiStatus::AccountRequired
            &&& contains_text(m, "auth"@) ==> classify_lowered(m) == UiStatus::AccountRequired
            &&& contains_text(m, "401"@) ==> classify_lowered(m) == UiStatus::AccountRequired
            &&& contains_text(m, "вход"@) ==> classify_lowered(m) == UiStatus::AccountRequired
            &&& (!contains_text(m, "unauthorized"@) && !contains_text(m, "not logged"@) && !contains_text(
                m,
                "login"@,
            ) && !contains_text(m, "auth"@) && !contains_text(m, "401"@) && !contains_text(m, "вход"@))
                ==> {
                &&& contains_text(m, "subscription"@) ==> classify_lowered(m) == UiStatus::SubscriptionRequired
                &&& contains_text(m, "billing"@) ==> classify_lowered(m) == UiStatus::SubscriptionRequired
                &&& contains_text(m, "payment"@) ==> classify_lowered(m) == UiStatus::SubscriptionRequired
                &&& contains_text(m, "paid"@) ==> classify_lowered(m) == UiStatus::SubscriptionRequired
                &&& contains_text(m, "purchase"@) ==> classify_lowered(m) == UiStatus::SubscriptionRequired
                &&& contains_text(m, "403"@) ==> classify_lowered(m) == UiStatus::SubscriptionRequired
                &&& contains_text(m, "подпис"@) ==> classify_lowered(m) == UiStatus::SubscriptionRequired
                &&& contains_text(m, "оплат"@) ==> classify_lowered(m) == UiStatus::SubscriptionRequired
                &&& (!contains_text(m, "subscription"@) && !contains_text(m, "billing"@) && !contains_text(
                    m,
                    "payment"@,
                ) && !contains_text(m, "paid"@) && !contains_text(m, "purchase"@) && !contains_text(
                    m,
                    "403"@,
                ) && !contains_text(m, "подпис"@) && !contains_text(m, "оплат"@)) ==> classify_lowered(m)
                    == UiStatus::Error
            }
        },
{
}

/// Classifies an already lower-cased error message.
pub fn classify_lowercase(lowered: &str) -> (r: UiStatus)
    ensures
        r == classify_lowered(lowered@),
{
    if contains(lowered, "не удалось запустить codex") || contains(lowered, "codex: program not found") {
        UiStatus::CodexMissing
    } else if contains(lowered, "unauthorized") || contains(lowered, "not logged") || contains(
        lowered,
        "login",
    ) || contains(lowered, "auth") || contains(lowered, "401") || contains(lowered, "вход") {
        UiStatus::AccountRequired
    } else if contains(lowered, "subscription") || contains(lowered, "billing") || contains(
        lowered,
        "payment",
    ) || contains(lowered, "paid") || contains(lowered, "purchase") || contains(lowered, "403")
        || contains(lowered, "подпис") || contains(lowered, "оплат") {
        UiStatus::SubscriptionRequired
    } else {
        UiStatus::Error
    }
}

/// The status an error message points at, ignoring case. On ASCII text the
/// lower-casing is that of `A`..`Z`.
pub fn classify_error(message: &str) -> (r: UiStatus)
    ensures
        r == classify_model(message@),
        is_ascii_text(message@) ==> r == classify_lowered(ascii_lower(message@)),
{
    let lowered = to_lowercase(message);
    classify_lowercase(lowered.as_str())
}

/// The status of an ASCII error message does not change when the message is
/// written in capitals: `classify_error` gives the same for both.
pub proof fn lemma_classify_ignores_ascii_case(message: Seq<char>)
    requires
        is_ascii_text(message),
    ensures
        is_ascii_text(ascii_upper(message)),
        classify_lowered(ascii_lower(ascii_upper(message))) == classify_lowered(ascii_lower(message)),
{
    lemma_ascii_case_folds(message);
}

/// The status for the panel's state: a recorded error decides; otherwise a
/// query in flight shows loading (refreshing over an older snapshot); otherwise
/// a snapshot shows ready, or exhausted where the quota is used up or a limit
/// was reached.
pub open spec fn status_model(snapshot: Option<SnapshotModel>, error: Option<Seq<char>>, querying: bool) -> UiStatus {
    match error {
        Some(message) => classify_model(message),
        None => if querying {
            if snapshot is Some {
                UiStatus::Refreshing
            } else {
                UiStatus::Loading
            }
        } else {
            match snapshot {
                Some(s) => if s.used_percent >= 100 || s.limit_reached_type is Some {
                    UiStatus::Exhausted
                } else {
                    UiStatus::Ready
                },
                None => UiStatus::Loading,
            }
        },
    }
}

pub open spec fn snapshot_ref_model(snapshot: Option<&UsageSnapshot>) -> Option<SnapshotModel> {
    match snapshot {
        Some(s) => Some(s@),
        None => None,
    }
}

pub open spec fn error_ref_model(error: Option<&(String, i64)>) -> Option<Seq<char>> {
    match error {
        Some(e) => Some(e.0@),
        None => None,
    }
}

/// The status for a snapshot, the last error (message and time) and whether
/// a query is in flight.
pub fn ui_status(snapshot: Option<&UsageSnapshot>, error: Option<&(String, i64)>, querying: bool) -> (r:
    UiStatus)
    ensures
        r == status_model(snapshot_ref_model(snapshot), error_ref_model(error), querying),
{
    if let Some((message, _)) = error {
        return classify_error(message.as_str());
    }
    if querying {
        return if snapshot.is_some() {
            UiStatus::Refreshing
        } else {
            UiStatus::Loading
        };
    }
    match snapshot {
        Some(value) => if value.used_percent >= 100 || value.limit_reached_type.is_some() {
            UiStatus::Exhausted
        } else {
            UiStatus::Ready
        },
        None => UiStatus::Loading,
    }
}

/// What the panel knows from the worker.
pub struct AppState {
    pub snapshot: Option<UsageSnapshot>,
    pub last_error: Option<(String, i64)>,
    pub querying: bool,
}

impl AppState {
    /// The state at start-up: nothing known, a query under way.
    pub fn new() -> (s: AppState)
        ensures
            s.snapshot is None,
            s.last_error is None,
            s.querying,
    {
        AppState { snapshot: None, last_error: None, querying: true }
    }

    /// The status the state shows.
    pub open spec fn status_spec(&self) -> UiStatus {
        status_model(
            match self.snapshot {
                Some(s) => Some(s@),
                None => None,
            },
            match self.last_error {
                Some(e) => Some(e.0@),
                None => None,
            },
            self.querying,
        )
    }

    /// The status the state shows.
    pub fn status(&self) -> (r: UiStatus)
        ensures
            r == self.status_spec(),
    {
        ui_status(self.snapshot.as_ref(), self.last_error.as_ref(), self.querying)
    }

    /// Takes in one update from the worker: a query marks the state as
    /// querying; a snapshot replaces the last one and clears the error; an
    /// error is recorded over the last snapshot.
    pub fn apply_update(&mut self, update: WorkerUpdate)
        ensures
            match update {
                WorkerUpdate::Querying => final(self).querying && final(self).snapshot == old(
                    self,
                ).snapshot && final(self).last_error == old(self).last_error,
                WorkerUpdate::Snapshot(s) => !final(self).querying && final(self).snapshot == Some(s)
                    && final(self).last_error is None,
                WorkerUpdate::Error { message, at } => !final(self).querying && final(self).snapshot
                    == old(self).snapshot && final(self).last_error == Some((message, at)),
            },
    {
        match update {
            WorkerUpdate::Querying => {
                self.querying = true;
            },
            WorkerUpdate::Snapshot(snapshot) => {
                self.snapshot = Some(snapshot);
                self.last_error = None;
                self.querying = false;
            },
            WorkerUpdate::Error { message, at } => {
                self.last_error = Some((message, at));
                self.querying = false;
            },
        }
    }
}

/// A snapshot leaves no error behind: the panel then shows ready or exhausted.
pub proof fn lemma_snapshot_clears_error(state: AppState, snapshot: UsageSnapshot)
    ensures
        ({
            let after = AppState { snapshot: Some(snapshot), last_error: None, querying: false };
            after.status_spec() == if snapshot.used_percent >= 100
                || snapshot.limit_reached_type is Some {
                UiStatus::Exhausted
            } else {
                UiStatus::Ready
            }
        }),
{
}

/// A recorded error decides the status whatever else the state holds.
pub proof fn lemma_error_decides_status(state: AppState, message: String, at: i64)
    ensures
        (AppState { last_error: Some((message, at)), querying: false, ..state }).status_spec()
            == classify_model(message@),
        (AppState { last_error: Some((message, at)), querying: true, ..state }).status_spec()
            == classify_model(message@),
{
}

// ---------------------------------------------------------------------------
// Tray icons
// ---------------------------------------------------------------------------

pub const LOADING_ICON_RESOURCE: u16 = 107;
pub const ERROR_ICON_RESOURCE: u16 = 108;
pub const ACCOUNT_ICON_RESOURCE: u16 = 109;
pub const MISSING_ICON_RESOURCE: u16 = 110;

/// The quota levels that have a tray icon, and the icons' resource ids.
pub open spec fn icon_level(i: int) -> u32 {
    if i == 0 {
        0
    } else if i == 1 {
        5
    } else if i == 2 {
        25
    } else if i == 3 {
        50
    } else if i == 4 {
        75
    } else if i == 5 {
        95
    } else {
        100
    }
}

pub open spec fn icon_resource(i: int) -> u16 {
    (100 + i) as u16
}

/// How far icon level `i` is from `percent`.
pub open spec fn level_distance(i: int, percent: u32) -> int {
    if icon_level(i) >= percent {
        icon_level(i) - percent
    } else {
        percent - icon_level(i)
    }
}

/// The first of the first `k` levels that is nearest to `percent`.
pub open spec fn nearest_level(percent: u32, k: nat) -> int
    decreases k,
{
    if k <= 1 {
        0
    } else {
        let best = nearest_level(percent, (k - 1) as nat);
        if level_distance(k - 1, percent) < level_distance(best, percent) {
            k - 1
        } else {
            best
        }
    }
}

/// The number of quota levels with an icon.
pub const ICON_LEVELS: usize = 7;

fn icon_state(i: usize) -> (r: (u32, u16))
    requires
        i < 7,
    ensures
        r.0 == icon_level(i as int),
        r.1 == icon_resource(i as int),
{
    match i {
        0 => (0, 100),
        1 => (5, 101),
        2 => (25, 102),
        3 => (50, 103),
        4 => (75, 104),
        5 => (95, 105),
        _ => (100, 106),
    }
}

fn distance_between(a: u32, b: u32) -> (r: u32)
    ensures
        r == if a >= b { a - b } else { b - a },
{
    if a >= b {
        a - b
    } else {
        b - a
    }
}

/// The icon of the quota level nearest to `percent` (the lower one on a tie).
pub fn status_icon_resource(percent: u32) -> (r: u16)
    ensures
        r == icon_resource(nearest_level(percent, 7)),
{
    let (level0, resource0) = icon_state(0);
    let mut best_resource = resource0;
    let mut best_distance = distance_between(level0, percent);
    let ghost mut best: int = 0;
    let mut i: usize = 1;
    while i < ICON_LEVELS
        invariant
            1 <= i <= 7,
            best == nearest_level(percent, i as nat),
            best_resource == icon_resource(best),
            best_distance == level_distance(best, percent),
            0 <= best < 7,
        decreases 7 - i,
    {
        let (level, resource) = icon_state(i);
        let distance = distance_between(level, percent);
        if distance < best_distance {
            best_distance = distance;
            best_resource = resource;
            proof {
                best = i as int;
            }
        }
        i += 1;
    }
    best_resource
}

/// The chosen icon's level is nearest to `percent`, and no earlier level is
/// as near.
pub proof fn lemma_nearest_level(percent: u32, k: nat)
    requires
        1 <= k <= 7,
    ensures
        0 <= nearest_level(percent, k) < k,
        forall|i: int|
            0 <= i < k ==> level_distance(nearest_level(percent, k), percent) <= #[trigger] level_distance(
                i,
                percent,
            ),
        forall|i: int|
            0 <= i < nearest_level(percent, k) ==> level_distance(nearest_level(percent, k), percent)
                < #[trigger] level_distance(i, percent),
    decreases k,
{
    if k > 1 {
        lemma_nearest_level(percent, (k - 1) as nat);
    }
}

/// The tray icon for the panel's state.
pub fn tray_resource_for_state(state: &AppState) -> (r: u16)
    ensures
        r == match state.status_spec() {
            UiStatus::Loading | UiStatus::Refreshing => LOADING_ICON_RESOURCE,
            UiStatus::AccountRequired | UiStatus::SubscriptionRequired => ACCOUNT_ICON_RESOURCE,
            UiStatus::CodexMissing => MISSING_ICON_RESOURCE,
            UiStatus::Error => ERROR_ICON_RESOURCE,
            UiStatus::Exhausted => icon_resource(nearest_level(0, 7)),
            UiStatus::Ready => match state.snapshot {
                Some(s) => icon_resource(
                    nearest_level(if s.used_percent <= 100 { (100 - s.used_percent) as u32 } else { 0 }, 7),
                ),
                None => LOADING_ICON_RESOURCE,
            },
        },
{
    match state.status() {
        UiStatus::Loading | UiStatus::Refreshing => LOADING_ICON_RESOURCE,
        UiStatus::AccountRequired | UiStatus::SubscriptionRequired => ACCOUNT_ICON_RESOURCE,
        UiStatus::CodexMissing => MISSING_ICON_RESOURCE,
        UiStatus::Error => ERROR_ICON_RESOURCE,
        UiStatus::Exhausted => status_icon_resource(0),
        UiStatus::Ready => match &state.snapshot {
            Some(snapshot) => status_icon_resource(100u32.saturating_sub(snapshot.used_percent)),
            None => LOADING_ICON_RESOURCE,
        },
    }
}


// ---------------------------------------------------------------------------
// Panel text
// ---------------------------------------------------------------------------

pub open spec fn credits_model(s: SnapshotModel) -> Seq<char> {
    if s.unlimited_credits {
        "∞"@
    } else {
        match s.credit_balance {
            Some(balance) => balance,
            None => "0"@,
        }
    }
}

/// The credits line: `∞` for unlimited credits, else the balance, else `0`.
pub fn credits_text(snapshot: &UsageSnapshot) -> (r: String)
    ensures
        r@ == credits_model(snapshot@),
{
    if snapshot.unlimited_credits {
        String::from_str("∞")
    } else {
        match &snapshot.credit_balance {
            Some(balance) => balance.clone(),
            None => String::from_str("0"),
        }
    }
}

/// The window length in the largest whole unit: weeks, days, hours or
/// minutes.
pub open spec fn window_model(minutes: Option<i64>) -> Seq<char> {
    match minutes {
        Some(v) => if v % 10_080 == 0 {
            decimal(v / 10_080) + " нед."@
        } else if v % 1_440 == 0 {
            decimal(v / 1_440) + " дн."@
        } else if v % 60 == 0 {
            decimal(v / 60) + " ч"@
        } else {
            decimal(v as int) + " мин"@
        },
        None => "окно неизвестно"@,
    }
}

fn with_suffix(n: i64, suffix: &str) -> (r: String)
    ensures
        r@ == decimal(n as int) + suffix@,
{
    let mut text = decimal_text(n);
    text.append(suffix);
    text
}

/// The length of the quota window, as the panel writes it.
#[verifier::rlimit(40)]
pub fn format_window(minutes: Option<i64>) -> (r: String)
    ensures
        r@ == window_model(minutes),
{
    match minutes {
        Some(value) => if value % 10_080 == 0 {
            with_suffix(value / 10_080, " нед.")
        } else if value % 1_440 == 0 {
            with_suffix(value / 1_440, " дн.")
        } else if value % 60 == 0 {
            with_suffix(value / 60, " ч")
        } else {
            with_suffix(value, " мин")
        },
        None => String::from_str("окно неизвестно"),
    }
}

/// A percentage as the panel writes it, such as `83%`.
pub fn percent_text(percent: u32) -> (r: String)
    ensures
        r@ == decimal(percent as int) + "%"@,
{
    with_suffix(percent as i64, "%")
}

/// `100 - used`, floored at zero.
pub open spec fn remaining_model(used: u32) -> u32 {
    if used <= 100 {
        (100 - used) as u32
    } else {
        0
    }
}

/// The rows of the panel: a label and a value each.
pub open spec fn rows_model(rows: Seq<(&'static str, String)>) -> Seq<(Seq<char>, Seq<char>)> {
    Seq::new(rows.len(), |i: int| (rows[i].0@, rows[i].1@))
}

/// The rows for a snapshot, with the reset and update times as rendered.
pub open spec fn snapshot_rows_model(
    s: SnapshotModel,
    status: UiStatus,
    reset: Seq<char>,
    updated: Seq<char>,
) -> Seq<(Seq<char>, Seq<char>)> {
    seq![
        ("Статус"@, title_model(status)),
        ("Осталось"@, decimal(remaining_model(s.used_percent) as int) + "%"@),
        ("Использовано"@, decimal(s.used_percent as int) + "%"@),
        ("Тариф"@, match s.plan_type {
            Some(plan) => plan,
            None => "неизвестно"@,
        }),
        ("Окно"@, window_model(s.window_duration_mins)),
        ("Сброс"@, reset),
        ("Кредиты"@, credits_model(s)),
        ("Обновлено"@, updated),
    ]
}

/// The rows for a snapshot, given the rendered reset time (or `неизвестно`)
/// and update time.
pub fn snapshot_rows_with(
    snapshot: &UsageSnapshot,
    status: UiStatus,
    reset: String,
    updated: String,
) -> (r: Vec<(&'static str, String)>)
    ensures
        rows_model(r@) == snapshot_rows_model(snapshot@, status, reset@, updated@),
{
    let remaining = 100u32.saturating_sub(snapshot.used_percent);
    let plan = match &snapshot.plan_type {
        Some(plan) => plan.clone(),
        None => String::from_str("неизвестно"),
    };
    let rows = vec![
        ("Статус", status_title(status).to_owned()),
        ("Осталось", percent_text(remaining)),
        ("Использовано", percent_text(snapshot.used_percent)),
        ("Тариф", plan),
        ("Окно", format_window(snapshot.window_duration_mins)),
        ("Сброс", reset),
        ("Кредиты", credits_text(snapshot)),
        ("Обновлено", updated),
    ];
    proof {
        assert(rows_model(rows@) =~= snapshot_rows_model(snapshot@, status, reset@, updated@));
    }
    rows
}

/// A timestamp's text as `format_datetime` renders it.
pub open spec fn datetime_text(timestamp: i64, text: Seq<char>) -> bool {
    if chrono_represents(timestamp as int) {
        local_day_time_text(timestamp as int, text)
    } else {
        text == "неизвестно"@
    }
}

/// The rows for a snapshot, with its reset and update times in local time.
pub fn snapshot_rows(snapshot: &UsageSnapshot, status: UiStatus) -> (r: Vec<(&'static str, String)>)
    ensures
        r@.len() == 8,
        rows_model(r@) == snapshot_rows_model(snapshot@, status, r@[5].1@, r@[7].1@),
        match snapshot.resets_at {
            Some(t) => datetime_text(t, r@[5].1@),
            None => r@[5].1@ == "неизвестно"@,
        },
        datetime_text(snapshot.updated_at, r@[7].1@),
{
    let reset = match snapshot.resets_at {
        Some(t) => format_datetime(t),
        None => String::from_str("неизвестно"),
    };
    let updated = format_datetime(snapshot.updated_at);
    let ghost reset_model = reset@;
    let ghost updated_model = updated@;
    let rows = snapshot_rows_with(snapshot, status, reset, updated);
    proof {
        assert(rows_model(rows@).len() == 8);
        assert(rows_model(rows@)[5].1 == reset_model);
        assert(rows_model(rows@)[7].1 == updated_model);
    }
    rows
}

/// The rows while no snapshot is known: the status, dashes, and the time of
/// the last error.
pub open spec fn loading_rows_model(status: UiStatus, updated: Seq<char>) -> Seq<(Seq<char>, Seq<char>)> {
    seq![
        ("Статус"@, title_model(status)),
        ("Осталось"@, "—"@),
        ("Использовано"@, "—"@),
        ("Тариф"@, "—"@),
        ("Окно"@, "—"@),
        ("Сброс"@, "—"@),
        ("Кредиты"@, "—"@),
        ("Обновлено"@, updated),
    ]
}

/// The rows while no snapshot is known, given the rendered update time.
pub fn loading_rows_with(status: UiStatus, updated: String) -> (r: Vec<(&'static str, String)>)
    ensures
        rows_model(r@) == loading_rows_model(status, updated@),
{
    let rows = vec![
        ("Статус", status_title(status).to_owned()),
        ("Осталось", String::from_str("—")),
        ("Использовано", String::from_str("—")),
        ("Тариф", String::from_str("—")),
        ("Окно", String::from_str("—")),
        ("Сброс", String::from_str("—")),
        ("Кредиты", String::from_str("—")),
        ("Обновлено", updated),
    ];
    proof {
        assert(rows_model(rows@) =~= loading_rows_model(status, updated@));
    }
    rows
}

/// The rows while no snapshot is known: the update time is that of the last
/// error, in local time, or a dash.
pub fn loading_rows(status: UiStatus, error: Option<&(String, i64)>) -> (r: Vec<(&'static str, String)>)
    ensures
        r@.len() == 8,
        rows_model(r@) == loading_rows_model(status, r@[7].1@),
        match error {
            Some(e) => datetime_text(e.1, r@[7].1@),
            None => r@[7].1@ == "—"@,
        },
{
    let updated = match error {
        Some((_, at)) => format_datetime(*at),
        None => String::from_str("—"),
    };
    let ghost updated_model = updated@;
    let rows = loading_rows_with(status, updated);
    proof {
        assert(rows_model(rows@).len() == 8);
        assert(rows_model(rows@)[7].1 == updated_model);
    }
    rows
}

} // verus!
