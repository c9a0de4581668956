//! The paginated scrape that turns application records into metric samples.
//!
//! One scrape drains the upstream applications listing page by page and
//! records, for every credential of every application, one sample keyed by
//! (application id, application name, key id) whose value is the
//! credential's expiration instant in whole seconds since the Unix epoch.
//! A scrape is all-or-nothing: a failure on any page fails the whole scrape
//! and no partial sample set is ever produced.
//!
//! The process performs the HTTP round-trips; every decision — which
//! address to fetch next, whether a status fails the scrape, what samples a
//! page contributes, when the run is complete — is made here.

use vstd::prelude::*;
use vstd::seq_lib::*;

verus! {

/// One secret or certificate entry of an application, as one page of the
/// upstream listing carries it.
pub struct Credentials {
    /// Optional human label.
    pub display_name: Option<String>,
    /// Expiration instant, an RFC 3339 date-and-time string.
    pub end_date_time: String,
    /// Opaque identifier, unique within the owning application and kind.
    pub key_id: String,
}

/// One registered application of one upstream page.
pub struct AzureApp {
    pub app_id: String,
    pub display_name: String,
    pub password_credentials: Vec<Credentials>,
    pub key_credentials: Vec<Credentials>,
}

/// One page of the upstream listing: its application records and, when the
/// listing continues, the address of the next page.
pub struct ResponsePage {
    pub next_link: Option<String>,
    pub value: Vec<AzureApp>,
}

/// The three labels that key one sample.
#[derive(Clone, Debug, PartialEq, Eq)]
pub struct CredentialLabels {
    pub app_id: String,
    pub app_name: String,
    pub key_id: String,
}

/// One metric sample: labels and the credential's expiration instant.
#[derive(Clone, Debug, PartialEq, Eq)]
pub struct Sample {
    pub labels: CredentialLabels,
    pub value: u64,
}

pub ghost struct CredModel {
    pub display_name: Option<Seq<char>>,
    pub end_date_time: Seq<char>,
    pub key_id: Seq<char>,
}

pub ghost struct AppModel {
    pub app_id: Seq<char>,
    pub display_name: Seq<char>,
    pub password_credentials: Seq<CredModel>,
    pub key_credentials: Seq<CredModel>,
}

pub ghost struct PageModel {
    pub next_link: Option<Seq<char>>,
    pub value: Seq<AppModel>,
}

pub ghost struct SampleModel {
    pub app_id: Seq<char>,
    pub app_name: Seq<char>,
    pub key_id: Seq<char>,
    pub value: u64,
}

impl View for Credentials {
    type V = CredModel;

    open spec fn view(&self) -> CredModel {
        CredModel {
            display_name: match self.display_name {
                Some(s) => Some(s@),
                None => None,
            },
            end_date_time: self.end_date_time@,
            key_id: self.key_id@,
        }
    }
}

impl View for AzureApp {
    type V = AppModel;

    open spec fn view(&self) -> AppModel {
        AppModel {
            app_id: self.app_id@,
            display_name: self.display_name@,
            password_credentials: self.password_credentials@.map_values(|c: Credentials| c@),
            key_credentials: self.key_credentials@.map_values(|c: Credentials| c@),
        }
    }
}

impl View for ResponsePage {
    type V = PageModel;

    open spec fn view(&self) -> PageModel {
        PageModel {
            next_link: match self.next_link {
                Some(s) => Some(s@),
                None => None,
            },
            value: self.value@.map_values(|a: AzureApp| a@),
        }
    }
}

impl View for Sample {
    type V = SampleModel;

    open spec fn view(&self) -> SampleModel {
        SampleModel {
            app_id: self.labels.app_id@,
            app_name: self.labels.app_name@,
            key_id: self.labels.key_id@,
            value: self.value,
        }
    }
}

/// Why a scrape failed.
#[derive(Clone, Copy, Debug, PartialEq, Eq)]
pub enum ScrapeError {
    /// No usable bearer token was available.
    TokenUnavailable,
    /// A page request could not be sent or its body not read.
    Network,
    /// A page request came back with this non-success status.
    Upstream(u16),
    /// A page body was not a valid listing page.
    BadPage,
    /// A credential carried an expiration instant that does not parse.
    InvalidExpiry,
    /// A page promised a next page that was never delivered.
    MissingPage,
}

/// What `DateTime::parse_from_rfc3339` followed by `timestamp` yields on a
/// given string: its instant in whole seconds since the Unix epoch, or
/// nothing when the string is not a valid RFC 3339 date-and-time.
pub uninterp spec fn rfc3339_timestamp(s: Seq<char>) -> Option<int>;

/// Relies on chrono's `DateTime::parse_from_rfc3339` and
/// `DateTime::timestamp`: the parse outcome and the instant's seconds since
/// the Unix epoch are functions of the input characters alone.
#[verifier::external_body]
fn parse_rfc3339_timestamp(s: &str) -> (r: Option<i64>)
    ensures
        r is Some <==> rfc3339_timestamp(s@) is Some,
        r matches Some(t) ==> rfc3339_timestamp(s@) == Some(t as int),
{
    match chrono::DateTime::parse_from_rfc3339(s) {
        Ok(dt) => Some(dt.timestamp()),
        Err(_) => None,
    }
}

/// What the `Display` form of the instant a string parses to looks like:
/// the instant in UTC, written `YYYY-MM-DD HH:MM:SS UTC`. Meaningful only
/// on strings that parse.
pub uninterp spec fn rfc3339_display(s: Seq<char>) -> Seq<char>;

/// Relies on chrono's `DateTime::parse_from_rfc3339`, `with_timezone` and
/// the `Display` of `DateTime<Utc>`: the parse outcome and the instant's
/// display form are functions of the input characters alone.
#[verifier::external_body]
fn rfc3339_display_of(s: &str) -> (r: Option<String>)
    ensures
        r is Some <==> rfc3339_timestamp(s@) is Some,
        r matches Some(d) ==> d@ == rfc3339_display(s@),
{
    match chrono::DateTime::parse_from_rfc3339(s) {
        Ok(dt) => Some(dt.with_timezone(&chrono::Utc).to_string()),
        Err(_) => None,
    }
}

/// Whether a credential's expiration instant parses.
pub open spec fn spec_cred_ok(c: CredModel) -> bool {
    rfc3339_timestamp(c.end_date_time) is Some
}

/// The sample one credential of one application contributes. The gauge
/// value is the expiration instant's seconds, reinterpreted as unsigned.
pub open spec fn spec_cred_sample(app: AppModel, c: CredModel) -> SampleModel {
    SampleModel {
        app_id: app.app_id,
        app_name: app.display_name,
        key_id: c.key_id,
        value: rfc3339_timestamp(c.end_date_time).unwrap() as u64,
    }
}

/// An application's credentials, password entries first, key entries after.
pub open spec fn spec_app_creds(app: AppModel) -> Seq<CredModel> {
    app.password_credentials + app.key_credentials
}

pub open spec fn spec_creds_ok(creds: Seq<CredModel>) -> bool {
    forall|i: int| 0 <= i < creds.len() ==> spec_cred_ok(#[trigger] creds[i])
}

pub open spec fn spec_app_ok(app: AppModel) -> bool {
    spec_creds_ok(spec_app_creds(app))
}

/// The samples one application contributes: exactly one per credential, in
/// list order.
pub open spec fn spec_app_samples(app: AppModel) -> Seq<SampleModel> {
    spec_app_creds(app).map_values(|c: CredModel| spec_cred_sample(app, c))
}

/// One credential's sample, or the error that fails the scrape when its
/// expiration instant does not parse.
fn cred_sample(app: &AzureApp, c: &Credentials) -> (r: Result<Sample, ScrapeError>)
    ensures
        r is Ok <==> spec_cred_ok(c@),
        r matches Ok(s) ==> s@ == spec_cred_sample(app@, c@),
        r matches Err(e) ==> e == ScrapeError::InvalidExpiry,
{
    match parse_rfc3339_timestamp(c.end_date_time.as_str()) {
        Some(t) => {
            let value = #[verifier::truncate] (t as u64);
            Ok(
                Sample {
                    labels: CredentialLabels {
                        app_id: app.app_id.clone(),
                        app_name: app.display_name.clone(),
                        key_id: c.key_id.clone(),
                    },
                    value,
                },
            )
        },
        None => Err(ScrapeError::InvalidExpiry),
    }
}

/// Appends, to `out`, one sample per credential of `creds`, or reports the
/// first credential whose expiration instant does not parse.
fn push_creds_samples(app: &AzureApp, creds: &Vec<Credentials>, out: &mut Vec<Sample>) -> (r:
    Result<(), ScrapeError>)
    ensures
        r is Ok <==> spec_creds_ok(creds@.map_values(|c: Credentials| c@)),
        r is Ok ==> final(out)@.map_values(|s: Sample| s@) == old(out)@.map_values(
            |s: Sample| s@,
        ) + creds@.map_values(|c: Credentials| c@).map_values(
            |c: CredModel| spec_cred_sample(app@, c),
        ),
        r matches Err(e) ==> e == ScrapeError::InvalidExpiry && final(out)@ == old(out)@,
{
    let ghost creds_model = creds@.map_values(|c: Credentials| c@);
    let ghost f = |c: CredModel| spec_cred_sample(app@, c);
    let ghost sview = |s: Sample| s@;
    let mut fresh: Vec<Sample> = Vec::new();
    let mut i: usize = 0;
    while i < creds.len()
        invariant
            0 <= i <= creds.len(),
            creds_model == creds@.map_values(|c: Credentials| c@),
            f == (|c: CredModel| spec_cred_sample(app@, c)),
            sview == (|s: Sample| s@),
            fresh@.map_values(sview) == creds_model.take(i as int).map_values(f),
            forall|j: int| 0 <= j < i ==> spec_cred_ok(#[trigger] creds_model[j]),
        decreases creds.len() - i,
    {
        match cred_sample(app, &creds[i]) {
            Ok(s) => {
                let ghost pre = fresh@;
                fresh.push(s);
                proof {
                    assert(creds_model[i as int] == creds@[i as int]@);
                    pre.lemma_push_map_commute(sview, s);
                    creds_model.lemma_map_take_succ(f, i as int);
                    assert(sview(s) == f(creds_model[i as int]));
                    assert(fresh@.map_values(sview) =~= creds_model.take(i as int + 1).map_values(
                        f,
                    ));
                }
            },
            Err(e) => {
                proof {
                    assert(creds_model[i as int] == creds@[i as int]@);
                    assert(!spec_cred_ok(creds_model[i as int]));
                }
                return Err(e);
            },
        }
        i += 1;
    }
    proof {
        assert(creds_model.take(creds_model.len() as int) =~= creds_model);
    }
    out.append(&mut fresh);
    proof {
        assert(out@.map_values(sview) =~= old(out)@.map_values(sview) + creds_model.map_values(f));
    }
    Ok(())
}

/// The samples of one application: one per credential, password credentials
/// first, or the error when any credential fails to parse.
pub fn app_samples(app: &AzureApp) -> (r: Result<Vec<Sample>, ScrapeError>)
    ensures
        r is Ok <==> spec_app_ok(app@),
        r matches Ok(v) ==> v@.map_values(|s: Sample| s@) == spec_app_samples(app@),
        r matches Err(e) ==> e == ScrapeError::InvalidExpiry,
{
    proof {
        let pw = app@.password_credentials;
        let ks = app@.key_credentials;
        assert forall|j: int| 0 <= j < pw.len() implies spec_app_creds(app@)[j] == pw[j] by {}
        assert forall|j: int| 0 <= j < ks.len() implies spec_app_creds(app@)[pw.len() + j]
            == ks[j] by {}
        assert(spec_app_ok(app@) <==> spec_creds_ok(pw) && spec_creds_ok(ks)) by {
            if spec_creds_ok(pw) && spec_creds_ok(ks) {
                assert forall|i: int| 0 <= i < spec_app_creds(app@).len() implies spec_cred_ok(
                    #[trigger] spec_app_creds(app@)[i],
                ) by {
                    if i < pw.len() {
                        assert(spec_app_creds(app@)[i] == pw[i]);
                    } else {
                        assert(spec_app_creds(app@)[i] == ks[i - pw.len()]);
                    }
                }
            }
        }
    }
    let mut out: Vec<Sample> = Vec::new();
    let r1 = push_creds_samples(app, &app.password_credentials, &mut out);
    match r1 {
        Err(e) => Err(e),
        Ok(_) => {
            let r2 = push_creds_samples(app, &app.key_credentials, &mut out);
            match r2 {
                Err(e) => Err(e),
                Ok(_) => {
                    proof {
                        let f = |c: CredModel| spec_cred_sample(app@, c);
                        assert(spec_app_creds(app@).map_values(f) =~= app@
                            .password_credentials.map_values(f) + app@.key_credentials.map_values(
                            f,
                        ));
                        assert(out@.map_values(|s: Sample| s@) == spec_app_samples(app@));
                    }
                    Ok(out)
                },
            }
        },
    }
}

/// How a credential's expiration instant is written out: the display form
/// of the parsed instant, or the string as upstream sent it when it does
/// not parse.
pub open spec fn spec_cred_display_time(s: Seq<char>) -> Seq<char> {
    if rfc3339_timestamp(s) is Some {
        rfc3339_display(s)
    } else {
        s
    }
}

/// The one-line description of a credential: its key id, the label in
/// parentheses when one is present, and its expiration instant.
pub open spec fn spec_cred_render(c: CredModel) -> Seq<char> {
    c.key_id + (match c.display_name {
        Some(n) => " ("@ + n + ")"@,
        None => Seq::<char>::empty(),
    }) + ": "@ + spec_cred_display_time(c.end_date_time)
}

impl Credentials {
    /// The credential as one line of text.
    pub fn render(&self) -> (r: String)
        ensures
            r@ == spec_cred_render(self@),
    {
        let mut s = self.key_id.clone();
        match &self.display_name {
            Some(n) => {
                s.append(" (");
                s.append(n.as_str());
                s.append(")");
            },
            None => {},
        }
        s.append(": ");
        match rfc3339_display_of(self.end_date_time.as_str()) {
            Some(display) => s.append(display.as_str()),
            None => s.append(self.end_date_time.as_str()),
        }
        proof {
            assert(s@ =~= spec_cred_render(self@));
        }
        s
    }
}

/// A credential list as an indented block: one line per entry, or the word
/// `None` when the list is empty.
pub open spec fn spec_creds_block(creds: Seq<CredModel>) -> Seq<char>
    decreases creds.len(),
{
    if creds.len() == 0 {
        " None"@
    } else if creds.len() == 1 {
        "\n\t\t"@ + spec_cred_render(creds[0])
    } else {
        spec_creds_block(creds.drop_last()) + "\n\t\t"@ + spec_cred_render(creds.last())
    }
}

fn append_creds_block(s: &mut String, creds: &Vec<Credentials>)
    ensures
        final(s)@ == old(s)@ + spec_creds_block(creds@.map_values(|c: Credentials| c@)),
{
    let ghost model = creds@.map_values(|c: Credentials| c@);
    if creds.len() == 0 {
        s.append(" None");
        return ;
    }
    let mut i: usize = 0;
    while i < creds.len()
        invariant
            0 < creds.len(),
            0 <= i <= creds.len(),
            model == creds@.map_values(|c: Credentials| c@),
            i == 0 ==> s@ == old(s)@,
            i > 0 ==> s@ == old(s)@ + spec_creds_block(model.take(i as int)),
        decreases creds.len() - i,
    {
        s.append("\n\t\t");
        let line = creds[i].render();
        s.append(line.as_str());
        proof {
            assert(model[i as int] == creds@[i as int]@);
            let taken = model.take(i as int + 1);
            assert(taken.drop_last() =~= model.take(i as int));
            assert(taken.last() == model[i as int]);
        }
        i += 1;
    }
    proof {
        assert(model.take(model.len() as int) =~= model);
    }
}

/// The multi-line description of an application: its display name and id,
/// then its password credentials and key credentials as indented blocks.
pub open spec fn spec_app_render(app: AppModel) -> Seq<char> {
    app.display_name + " ("@ + app.app_id + "):"@ + "\n\tPassword Credentials:"@
        + spec_creds_block(app.password_credentials) + "\n\tKey Credentials:"@
        + spec_creds_block(app.key_credentials)
}

impl AzureApp {
    /// The application and its credentials as readable text.
    pub fn render(&self) -> (r: String)
        ensures
            r@ == spec_app_render(self@),
    {
        let mut s = self.display_name.clone();
        s.append(" (");
        s.append(self.app_id.as_str());
        s.append("):");
        s.append("\n\tPassword Credentials:");
        append_creds_block(&mut s, &self.password_credentials);
        s.append("\n\tKey Credentials:");
        append_creds_block(&mut s, &self.key_credentials);
        proof {
            assert(s@ =~= spec_app_render(self@));
        }
        s
    }
}

pub open spec fn spec_apps_ok(apps: Seq<AppModel>) -> bool {
    forall|i: int| 0 <= i < apps.len() ==> spec_app_ok(#[trigger] apps[i])
}

/// The samples of a run of applications, in listing order.
pub open spec fn spec_apps_samples(apps: Seq<AppModel>) -> Seq<SampleModel>
    decreases apps.len(),
{
    if apps.len() == 0 {
        Seq::empty()
    } else {
        spec_app_samples(apps[0]) + spec_apps_samples(apps.drop_first())
    }
}

/// Whether every credential of every application of a page parses.
pub open spec fn spec_page_ok(page: PageModel) -> bool {
    spec_apps_ok(page.value)
}

/// The samples one page contributes: one per credential of each of its
/// applications, in listing order.
pub open spec fn spec_page_samples(page: PageModel) -> Seq<SampleModel> {
    spec_apps_samples(page.value)
}

fn apps_samples_from(apps: &Vec<AzureApp>, i: usize) -> (r: Result<Vec<Sample>, ScrapeError>)
    requires
        i <= apps.len(),
    ensures
        r is Ok <==> spec_apps_ok(apps@.map_values(|a: AzureApp| a@).skip(i as int)),
        r matches Ok(v) ==> v@.map_values(|s: Sample| s@) == spec_apps_samples(
            apps@.map_values(|a: AzureApp| a@).skip(i as int),
        ),
        r matches Err(e) ==> e == ScrapeError::InvalidExpiry,
    decreases apps.len() - i,
{
    let ghost model = apps@.map_values(|a: AzureApp| a@).skip(i as int);
    let ghost sview = |s: Sample| s@;
    if i == apps.len() {
        let empty: Vec<Sample> = Vec::new();
        proof {
            assert(model =~= Seq::<AppModel>::empty());
            assert(empty@.map_values(sview) =~= spec_apps_samples(model));
        }
        Ok(empty)
    } else {
        proof {
            assert(apps@.map_values(|a: AzureApp| a@)[i as int] == apps@[i as int]@);
            assert(model[0] == apps@[i as int]@);
        }
        match app_samples(&apps[i]) {
            Err(e) => {
                proof {
                    assert(!spec_app_ok(model[0]));
                }
                Err(e)
            },
            Ok(mut v) => {
                let r = apps_samples_from(apps, i + 1);
                proof {
                    assert(model.drop_first() =~= apps@.map_values(|a: AzureApp| a@).skip(
                        i as int + 1,
                    ));
                }
                match r {
                    Err(e) => {
                        proof {
                            let sub = model.drop_first();
                            let j = choose|j: int| 0 <= j < sub.len() && !spec_app_ok(sub[j]);
                            assert(model[j + 1] == sub[j]);
                        }
                        Err(e)
                    },
                    Ok(mut rest) => {
                        let ghost vpre = v@;
                        let ghost restpre = rest@;
                        v.append(&mut rest);
                        proof {
                            assert forall|k: int|
                                0 <= k < model.len() implies spec_app_ok(#[trigger] model[k]) by {
                                if k == 0 {
                                } else {
                                    assert(model[k] == model.drop_first()[k - 1]);
                                }
                            }
                            assert(v@.map_values(sview) =~= vpre.map_values(sview)
                                + restpre.map_values(sview));
                            assert(v@.map_values(sview) == spec_apps_samples(model));
                        }
                        Ok(v)
                    },
                }
            },
        }
    }
}

/// The samples of one page: one per credential of each application, or the
/// error when any credential's expiration instant fails to parse.
pub fn page_samples(page: &ResponsePage) -> (r: Result<Vec<Sample>, ScrapeError>)
    ensures
        r is Ok <==> spec_page_ok(page@),
        r matches Ok(v) ==> v@.map_values(|s: Sample| s@) == spec_page_samples(page@),
        r matches Err(e) ==> e == ScrapeError::InvalidExpiry,
{
    let r = apps_samples_from(&page.value, 0);
    proof {
        assert(page.value@.map_values(|a: AzureApp| a@).skip(0) =~= page@.value);
    }
    r
}

pub open spec fn spec_applications_endpoint() -> Seq<char> {
    "https://graph.microsoft.com/v1.0/applications/"@
}

/// The address the first page of a scrape is requested from.
pub fn applications_endpoint() -> (r: &'static str)
    ensures
        r@ == spec_applications_endpoint(),
{
    "https://graph.microsoft.com/v1.0/applications/"
}

/// The display name of this scraper, shown on the landing page.
pub fn scraper_name() -> (r: &'static str)
    ensures
        r@ == "Azure App Secrets"@,
{
    "Azure App Secrets"
}

/// The query parameter sent with the first page request, restricting the
/// listing to the fields a scrape reads.
pub fn select_param() -> (r: (&'static str, &'static str))
    ensures
        r.0@ == "$select"@,
        r.1@ == "appId,displayName,keyCredentials,passwordCredentials"@,
{
    ("$select", "appId,displayName,keyCredentials,passwordCredentials")
}

/// Whether a page response's HTTP status fails the scrape: client and
/// server error statuses do, anything else does not.
pub fn check_status(status: u16) -> (r: Result<(), ScrapeError>)
    ensures
        r is Ok <==> !(400 <= status < 600),
        r matches Err(e) ==> e == ScrapeError::Upstream(status),
{
    if 400 <= status && status < 600 {
        Err(ScrapeError::Upstream(status))
    } else {
        Ok(())
    }
}

/// One scrape in progress: the samples gathered so far and where the next
/// page request goes. The process fetches each page and hands it to
/// [`Scrape::apply_page`]; all pagination decisions are made here.
pub struct Scrape {
    /// Samples of every page applied so far.
    pub samples: Vec<Sample>,
    /// Address of the next page request.
    pub next_url: String,
    /// Whether the next request is the first, which alone carries the
    /// field-selection query.
    pub first: bool,
    /// Whether the listing is fully drained.
    pub done: bool,
}

impl Scrape {
    /// A scrape about to request the first page of the listing.
    pub fn begin() -> (r: Self)
        ensures
            r.samples@.len() == 0,
            r.next_url@ == spec_applications_endpoint(),
            r.first,
            !r.done,
    {
        Scrape {
            samples: Vec::new(),
            next_url: String::from_str(applications_endpoint()),
            first: true,
            done: false,
        }
    }

    /// Fold one fetched page into the scrape: its samples are appended, and
    /// the run either follows the page's next link or is complete. On a
    /// credential that fails to parse, the scrape fails and nothing is
    /// changed; no partial page is kept.
    pub fn apply_page(&mut self, page: &ResponsePage) -> (r: Result<(), ScrapeError>)
        requires
            !old(self).done,
        ensures
            r is Ok <==> spec_page_ok(page@),
            r is Ok ==> final(self).samples@.map_values(|s: Sample| s@) == old(
                self,
            ).samples@.map_values(|s: Sample| s@) + spec_page_samples(page@),
            r is Ok ==> final(self).done == (page@.next_link is None),
            r is Ok ==> (page@.next_link matches Some(u) ==> final(self).next_url@ == u),
            r is Ok ==> (page@.next_link is None ==> final(self).next_url == old(self).next_url),
            r is Ok ==> !final(self).first,
            r matches Err(e) ==> e == ScrapeError::InvalidExpiry && final(self).samples == old(
                self,
            ).samples && final(self).next_url == old(self).next_url && final(self).first == old(
                self,
            ).first && !final(self).done,
    {
        match page_samples(page) {
            Err(e) => Err(e),
            Ok(mut v) => {
                let ghost pre = self.samples@;
                let ghost vpre = v@;
                self.samples.append(&mut v);
                self.first = false;
                match &page.next_link {
                    Some(u) => {
                        self.next_url = u.clone();
                        self.done = false;
                    },
                    None => {
                        self.done = true;
                    },
                }
                proof {
                    let sview = |s: Sample| s@;
                    assert(self.samples@.map_values(sview) =~= pre.map_values(sview)
                        + vpre.map_values(sview));
                }
                Ok(())
            },
        }
    }
}

/// The outcome of a whole scrape, as a function of the pages the upstream
/// delivered, in order: the samples of every page of the run when each one
/// arrived, parsed, and the last carried no next link — or the first
/// failure. An error on any page fails the whole run; an `Ok` run never
/// consults fetches beyond its final page.
pub open spec fn spec_scrape(fetches: Seq<Result<PageModel, ScrapeError>>) -> Result<
    Seq<SampleModel>,
    ScrapeError,
>
    decreases fetches.len(),
{
    if fetches.len() == 0 {
        Err(ScrapeError::MissingPage)
    } else {
        match fetches[0] {
            Err(e) => Err(e),
            Ok(page) => {
                if !spec_page_ok(page) {
                    Err(ScrapeError::InvalidExpiry)
                } else if page.next_link is None {
                    Ok(spec_page_samples(page))
                } else {
                    match spec_scrape(fetches.drop_first()) {
                        Err(e) => Err(e),
                        Ok(rest) => Ok(spec_page_samples(page) + rest),
                    }
                }
            },
        }
    }
}

pub open spec fn spec_fetches(fetches: Seq<Result<ResponsePage, ScrapeError>>) -> Seq<
    Result<PageModel, ScrapeError>,
> {
    fetches.map_values(
        |f: Result<ResponsePage, ScrapeError>|
            match f {
                Ok(p) => Ok(p@),
                Err(e) => Err(e),
            },
    )
}

fn scrape_from(fetches: &Vec<Result<ResponsePage, ScrapeError>>, i: usize) -> (r: Result<
    Vec<Sample>,
    ScrapeError,
>)
    requires
        i <= fetches.len(),
    ensures
        ({
            let outcome = spec_scrape(spec_fetches(fetches@).skip(i as int));
            &&& (r matches Ok(v) ==> outcome matches Ok(m) && v@.map_values(|s: Sample| s@) == m)
            &&& (r matches Err(e) ==> outcome == Err::<Seq<SampleModel>, ScrapeError>(e))
        }),
    decreases fetches.len() - i,
{
    let ghost model = spec_fetches(fetches@).skip(i as int);
    let ghost sview = |s: Sample| s@;
    if i == fetches.len() {
        proof {
            assert(model =~= Seq::<Result<PageModel, ScrapeError>>::empty());
        }
        Err(ScrapeError::MissingPage)
    } else {
        proof {
            assert(spec_fetches(fetches@)[i as int] == (match fetches@[i as int] {
                Ok(p) => Ok::<PageModel, ScrapeError>(p@),
                Err(e) => Err(e),
            }));
            assert(model[0] == spec_fetches(fetches@)[i as int]);
        }
        match &fetches[i] {
            Err(e) => Err(*e),
            Ok(page) => {
                match page_samples(page) {
                    Err(e) => Err(e),
                    Ok(mut v) => {
                        if page.next_link.is_none() {
                            Ok(v)
                        } else {
                            let r = scrape_from(fetches, i + 1);
                            proof {
                                assert(model.drop_first() =~= spec_fetches(fetches@).skip(
                                    i as int + 1,
                                ));
                            }
                            match r {
                                Err(e) => Err(e),
                                Ok(mut rest) => {
                                    let ghost vpre = v@;
                                    let ghost restpre = rest@;
                                    v.append(&mut rest);
                                    proof {
                                        assert(v@.map_values(sview) =~= vpre.map_values(sview)
                                            + restpre.map_values(sview));
                                    }
                                    Ok(v)
                                },
                            }
                        }
                    },
                }
            },
        }
    }
}

/// One whole scrape over the pages the upstream delivered, in order: all
/// samples of the full run, or its first failure and no samples at all.
pub fn scrape(fetches: &Vec<Result<ResponsePage, ScrapeError>>) -> (r: Result<
    Vec<Sample>,
    ScrapeError,
>)
    ensures
        r matches Ok(v) ==> spec_scrape(spec_fetches(fetches@)) matches Ok(m) && v@.map_values(
            |s: Sample| s@,
        ) == m,
        r matches Err(e) ==> spec_scrape(spec_fetches(fetches@)) == Err::<
            Seq<SampleModel>,
            ScrapeError,
        >(e),
{
    let r = scrape_from(fetches, 0);
    proof {
        assert(spec_fetches(fetches@).skip(0) =~= spec_fetches(fetches@));
    }
    r
}

/// A scrape is all-or-nothing across pagination: when the run reaches a
/// fetch that failed — every earlier page arrived, parsed, and pointed at a
/// next page — the whole scrape fails, and no samples from the earlier
/// pages are returned.
pub proof fn lemma_scrape_all_or_nothing(fetches: Seq<Result<PageModel, ScrapeError>>, i: int)
    requires
        0 <= i < fetches.len(),
        fetches[i] is Err,
        forall|j: int|
            0 <= j < i ==> (#[trigger] fetches[j] matches Ok(p) && spec_page_ok(p)
                && p.next_link is Some),
    ensures
        spec_scrape(fetches) is Err,
    decreases i,
{
    if i > 0 {
        lemma_scrape_all_or_nothing(fetches.drop_first(), i - 1);
    }
}

/// How many credentials, of both kinds, a run of applications carries.
pub open spec fn spec_cred_count(apps: Seq<AppModel>) -> nat
    decreases apps.len(),
{
    if apps.len() == 0 {
        0
    } else {
        spec_app_creds(apps[0]).len() + spec_cred_count(apps.drop_first())
    }
}

proof fn lemma_apps_samples_len(apps: Seq<AppModel>)
    ensures
        spec_apps_samples(apps).len() == spec_cred_count(apps),
    decreases apps.len(),
{
    if apps.len() > 0 {
        lemma_apps_samples_len(apps.drop_first());
    }
}

/// Every credential present in a page yields exactly one sample — the
/// page's samples number exactly its credentials — and an application whose
/// credential lists are empty contributes no sample at all.
pub proof fn lemma_one_sample_per_credential(page: PageModel)
    ensures
        spec_page_samples(page).len() == spec_cred_count(page.value),
        forall|i: int|
            0 <= i < page.value.len() && (#[trigger] page.value[i]).password_credentials.len() == 0
                && page.value[i].key_credentials.len() == 0 ==> spec_app_samples(
                page.value[i],
            ).len() == 0,
{
    lemma_apps_samples_len(page.value);
}

} // verus!
