use vstd::prelude::*;

verus! {

/// The answers given during setup.
pub struct WizardChoices {
    pub repos: Vec<String>,
    pub include_example_tag: bool,
    pub base_url: String,
}

/// Everything one setup session produces: the text shown to the user and the
/// generated files.
pub struct WizardSession {
    /// The text shown during setup (prompts, guidance, answers).
    pub display: String,
    /// The generated `govbot.yml`.
    pub govbot_yml: String,
    /// The generated GitHub Actions workflow.
    pub workflow_yml: String,
}

/// `items` joined by `sep`.
pub open spec fn join_with(items: Seq<String>, sep: Seq<char>) -> Seq<char>
    decreases items.len(),
{
    if items.len() == 0 {
        Seq::empty()
    } else if items.len() == 1 {
        items[0]@
    } else {
        join_with(items.drop_last(), sep) + sep + items.last()@
    }
}

/// The end of the `k`-th group of ten in a list of `n` items.
pub open spec fn chunk_end(k: nat, n: nat) -> int {
    if 10 * k < n {
        (10 * k) as int
    } else {
        n as int
    }
}

/// The first `k` lines of the locale listing: ten codes per line, comma-separated.
pub open spec fn locale_lines(locales: Seq<String>, k: nat) -> Seq<char>
    decreases k,
{
    if k == 0 {
        Seq::empty()
    } else {
        locale_lines(locales, (k - 1) as nat) + "  "@ + join_with(
            locales.subrange(chunk_end((k - 1) as nat, locales.len()), chunk_end(k, locales.len())),
            ", "@,
        ) + "\n"@
    }
}

/// The whole locale listing.
pub open spec fn locale_listing_text(locales: Seq<String>) -> Seq<char> {
    locale_lines(locales, (locales.len() + 9) as nat / 10)
}

/// Whether the chosen sources are the single sentinel `all`.
pub open spec fn is_all_repos(repos: Seq<String>) -> bool {
    repos.len() == 1 && repos[0]@ == "all"@
}

pub open spec fn ai_prompt_text() -> Seq<char> {
    "To create a tag, copy this prompt into your preferred AI tool:\n\n"@
    + "---\n"@
    + "Create a govbot tag definition in YAML for tracking [YOUR TOPIC] legislation.\n"@
    + "The tag should have:\n"@
    + "- A description (multiline, covering subtopics)\n"@
    + "- 2-3 example bill descriptions that would match\n"@
    + "- Optional: include_keywords and exclude_keywords lists\n\n"@
    + "Format:\n"@
    + "  tag_name:\n"@
    + "    description: |\n"@
    + "      ...\n"@
    + "    examples:\n"@
    + "      - \"...\"\n"@
    + "    include_keywords:\n"@
    + "      - keyword1\n"@
    + "    exclude_keywords:\n"@
    + "      - keyword1\n"@
    + "---\n\n"@
    + "Paste the result into your govbot.yml under the 'tags:' section.\n"@
}

/// The GitHub Actions workflow that runs the pipeline every day and on each push.
pub const GITHUB_WORKFLOW: &'static str = r#"# Run Govbot
# Runs govbot to clone repos, tag bills, and build RSS feeds and HTML index.

name: Build Govbot

on:
  push:
    branches:
      - main
      - master
  schedule:
    - cron: '0 0 * * *'
  workflow_dispatch:
    inputs:
      tags:
        description: 'Comma-separated list of tags to include (leave empty for all tags)'
        required: false
        type: string
      limit:
        description: 'Limit number of entries per feed (default: 15, use "none" for all)'
        required: false
        type: string

jobs:
  govbot:
    runs-on: ubuntu-latest

    steps:
      - name: Checkout repository
        uses: actions/checkout@v4

      - name: Run Govbot
        uses: windy-civi/toolkit/actions/govbot@main
        with:
          tags: ${{ inputs.tags }}
          limit: ${{ inputs.limit }}
"#;

pub open spec fn workflow_text() -> Seq<char> {
    GITHUB_WORKFLOW@
}

/// One `  - <repo>` line per repository, in order.
pub open spec fn repo_lines(repos: Seq<String>) -> Seq<char>
    decreases repos.len(),
{
    if repos.len() == 0 {
        Seq::empty()
    } else {
        repo_lines(repos.drop_last()) + "  - "@ + repos.last()@ + "\n"@
    }
}

/// The body of the `tags:` section.
pub open spec fn tags_section_text(include_example_tag: bool) -> Seq<char> {
    if include_example_tag {
        "  education:\n"@
        + "    description: |\n"@
        + "      Legislation related to schools, education funding, curriculum standards, and educational policy, including:\n"@
        + "      - K-12 public school funding, budgets, and resource allocation\n"@
        + "      - Curriculum standards, content requirements, and academic programs\n"@
        + "      - Teacher certification, training, professional development, and compensation\n"@
        + "      - Higher education policy, tuition, financial aid, and student loans\n"@
        + "      - Charter schools, school choice, vouchers, and alternative education models\n"@
        + "      - Special education services, accommodations, and individualized education plans\n"@
        + "      - School safety, security measures, and student discipline policies\n"@
        + "      - Early childhood education, pre-K programs, and childcare\n"@
        + "      - Standardized testing, assessments, and accountability measures\n"@
        + "      - School district governance, administration, and oversight\n"@
        + "      - Educational technology, digital learning, and online education\n"@
        + "      - Career and technical education, vocational training, and workforce development\n"@
        + "    examples:\n"@
        + "      - \"Increases per-pupil funding for public schools and establishes minimum teacher salary requirements\"\n"@
        + "      - \"Mandates comprehensive sex education curriculum in all public schools\"\n"@
        + "      - \"Expands eligibility for state financial aid programs to include part-time students\"\n"@
    } else {
        "  # Add your tags here. Example:\n"@
        + "  # my_topic:\n"@
        + "  #   description: |\n"@
        + "  #     Legislation related to ...\n"@
        + "  #   examples:\n"@
        + "  #     - \"Example bill description\"\n"@
        + "  {}\n"@
    }
}

/// The generated configuration file.
pub open spec fn govbot_yml_text(repos: Seq<String>, include_example_tag: bool, base_url: Seq<char>) -> Seq<char> {
    "# Govbot Configuration\n"@
    + "# Schema: https://raw.githubusercontent.com/windy-civi/toolkit/main/schemas/govbot.schema.json\n"@
    + "$schema: https://raw.githubusercontent.com/windy-civi/toolkit/main/schemas/govbot.schema.json\n\n"@
    + "repos:\n"@
    + repo_lines(repos)
    + "\n"@
    + "tags:\n"@
    + tags_section_text(include_example_tag)
    + "\n"@
    + "build:\n"@
    + "  base_url: \""@
    + base_url
    + "\"\n"@
    + "  output_dir: \"docs\"\n"@
    + "  output_file: \"feed.xml\"\n"@
}

/// The sources step as shown to the user.
pub open spec fn sources_text(repos: Seq<String>, locales: Seq<String>) -> Seq<char> {
    if is_all_repos(repos) {
        "? What data sources do you want to track?\n"@
        + "> All states (47 jurisdictions)\n"@
        + "  Select specific states\n"@
    } else {
        "? What data sources do you want to track?\n"@
        + "  All states (47 jurisdictions)\n"@
        + "> Select specific states\n"@
        + "\n"@
        + "Available states/jurisdictions:\n"@
        + locale_listing_text(locales)
        + "\n"@
        + "? Enter state codes separated by spaces: "@
        + join_with(repos, " "@)
        + "\n"@
    }
}

pub open spec fn tags_intro_text() -> Seq<char> {
    "Tags let govbot categorize legislation by topics you care about.\n"@
    + "Here's an example tag definition:\n\n"@
    + "  education:\n"@
    + "    description: |\n"@
    + "      Legislation related to schools, education funding,\n"@
    + "      curriculum standards, and educational policy.\n"@
    + "    examples:\n"@
    + "      - \"Increases per-pupil funding for public schools\"\n"@
    + "      - \"Mandates comprehensive sex education curriculum\"\n\n"@
}

/// The answer to the tags question as shown to the user.
pub open spec fn tags_choice_text(include_example_tag: bool) -> Seq<char> {
    if include_example_tag {
        "? How would you like to set up tags?\n"@
        + "> Use the example \"education\" tag to start\n"@
        + "  I'll create my own tags later\n"@
    } else {
        "? How would you like to set up tags?\n"@
        + "  Use the example \"education\" tag to start\n"@
        + "> I'll create my own tags later\n"@
        + "\n"@
        + ai_prompt_text()
    }
}

/// The whole session as shown to the user.
pub open spec fn display_text(
    repos: Seq<String>,
    include_example_tag: bool,
    base_url: Seq<char>,
    locales: Seq<String>,
) -> Seq<char> {
    "Welcome to govbot! Let's set up your project.\n\n"@
    + sources_text(repos, locales)
    + "\n"@
    + tags_intro_text()
    + tags_choice_text(include_example_tag)
    + "\n"@
    + "Publishing is configured for RSS feeds by default.\n"@
    + "Your feeds will be generated in the \"docs\" directory.\n\n"@
    + "? Base URL for your feeds: "@
    + base_url
    + "\n\n"@
    + "  ✓ Created govbot.yml\n"@
    + "  ✓ Created .gitignore with .govbot\n"@
    + "  ✓ Created .github/workflows/build.yml\n\n"@
    + "Setup complete! Run 'govbot' again to start the pipeline.\n"@
}

/// The session rendered as one document.
pub open spec fn snapshot_text(display: Seq<char>, govbot_yml: Seq<char>, workflow_yml: Seq<char>) -> Seq<char> {
    "=== Wizard Session ===\n\n"@
    + display
    + "\n=== Generated: govbot.yml ===\n\n"@
    + govbot_yml
    + "\n=== Generated: .github/workflows/build.yml ===\n\n"@
    + workflow_yml
}

/// `items[lo..hi]` joined by `sep`.
fn joined(items: &[String], lo: usize, hi: usize, sep: &str) -> (r: String)
    requires
        lo <= hi <= items@.len(),
    ensures
        r@ == join_with(items@.subrange(lo as int, hi as int), sep@),
{
    let mut s = String::new();
    let mut j = lo;
    while j < hi
        invariant
            lo <= j <= hi,
            hi <= items@.len(),
            s@ == join_with(items@.subrange(lo as int, j as int), sep@),
        decreases hi - j,
    {
        let ghost next = items@.subrange(lo as int, j + 1);
        assert(next.drop_last() =~= items@.subrange(lo as int, j as int));
        if j > lo {
            s.append(sep);
        }
        s.append(items[j].as_str());
        assert(s@ =~= join_with(next, sep@));
        j += 1;
    }
    s
}

/// The available locale codes, ten per line.
pub fn locale_listing(locales: &[String]) -> (r: String)
    ensures
        r@ == locale_listing_text(locales@),
{
    let n = locales.len();
    let mut s = String::new();
    let mut i: usize = 0;
    let ghost mut k: nat = 0;
    while i < n
        invariant
            n == locales@.len(),
            i == chunk_end(k, n as nat),
            10 * k < n + 10,
            s@ == locale_lines(locales@, k),
        decreases n - i,
    {
        let end = if n - i > 10 {
            i + 10
        } else {
            n
        };
        let line = joined(locales, i, end, ", ");
        s.append("  ");
        s.append(line.as_str());
        s.append("\n");
        proof {
            k = k + 1;
        }
        assert(s@ == locale_lines(locales@, k));
        i = end;
    }
    s
}

/// The guidance shown when the user chooses to write their own tags.
pub fn ai_prompt_template() -> (r: String)
    ensures
        r@ == ai_prompt_text(),
{
    let mut s = String::from_str("To create a tag, copy this prompt into your preferred AI tool:\n\n");
    s.append("---\n");
    s.append("Create a govbot tag definition in YAML for tracking [YOUR TOPIC] legislation.\n");
    s.append("The tag should have:\n");
    s.append("- A description (multiline, covering subtopics)\n");
    s.append("- 2-3 example bill descriptions that would match\n");
    s.append("- Optional: include_keywords and exclude_keywords lists\n\n");
    s.append("Format:\n");
    s.append("  tag_name:\n");
    s.append("    description: |\n");
    s.append("      ...\n");
    s.append("    examples:\n");
    s.append("      - \"...\"\n");
    s.append("    include_keywords:\n");
    s.append("      - keyword1\n");
    s.append("    exclude_keywords:\n");
    s.append("      - keyword1\n");
    s.append("---\n\n");
    s.append("Paste the result into your govbot.yml under the 'tags:' section.\n");
    s
}

/// The GitHub Actions workflow that runs the pipeline.
pub fn github_workflow_content() -> (r: &'static str)
    ensures
        r@ == workflow_text(),
{
    GITHUB_WORKFLOW
}

fn tags_section(include_example_tag: bool) -> (r: String)
    ensures
        r@ == tags_section_text(include_example_tag),
{
    if include_example_tag {
        let mut s = String::from_str("  education:\n");
        s.append("    description: |\n");
        s.append("      Legislation related to schools, education funding, curriculum standards, and educational policy, including:\n");
        s.append("      - K-12 public school funding, budgets, and resource allocation\n");
        s.append("      - Curriculum standards, content requirements, and academic programs\n");
        s.append("      - Teacher certification, training, professional development, and compensation\n");
        s.append("      - Higher education policy, tuition, financial aid, and student loans\n");
        s.append("      - Charter schools, school choice, vouchers, and alternative education models\n");
        s.append("      - Special education services, accommodations, and individualized education plans\n");
        s.append("      - School safety, security measures, and student discipline policies\n");
        s.append("      - Early childhood education, pre-K programs, and childcare\n");
        s.append("      - Standardized testing, assessments, and accountability measures\n");
        s.append("      - School district governance, administration, and oversight\n");
        s.append("      - Educational technology, digital learning, and online education\n");
        s.append("      - Career and technical education, vocational training, and workforce development\n");
        s.append("    examples:\n");
        s.append("      - \"Increases per-pupil funding for public schools and establishes minimum teacher salary requirements\"\n");
        s.append("      - \"Mandates comprehensive sex education curriculum in all public schools\"\n");
        s.append("      - \"Expands eligibility for state financial aid programs to include part-time students\"\n");
        s
    } else {
        let mut s = String::from_str("  # Add your tags here. Example:\n");
        s.append("  # my_topic:\n");
        s.append("  #   description: |\n");
        s.append("  #     Legislation related to ...\n");
        s.append("  #   examples:\n");
        s.append("  #     - \"Example bill description\"\n");
        s.append("  {}\n");
        s
    }
}

fn repos_list(repos: &[String]) -> (r: String)
    ensures
        r@ == repo_lines(repos@),
{
    let mut s = String::new();
    let mut i: usize = 0;
    while i < repos.len()
        invariant
            i <= repos@.len(),
            s@ == repo_lines(repos@.subrange(0, i as int)),
        decreases repos@.len() - i,
    {
        assert(repos@.subrange(0, i + 1).drop_last() =~= repos@.subrange(0, i as int));
        s.append("  - ");
        s.append(repos[i].as_str());
        s.append("\n");
        i += 1;
    }
    assert(repos@.subrange(0, repos@.len() as int) =~= repos@);
    s
}

/// The configuration file for the given answers: the repositories in order,
/// the example tag or a commented template, and the build settings.
pub fn generate_govbot_yml(repos: &[String], include_example_tag: bool, base_url: &str) -> (r: String)
    ensures
        r@ == govbot_yml_text(repos@, include_example_tag, base_url@),
{
    let mut yml = String::from_str("# Govbot Configuration\n");
    yml.append("# Schema: https://raw.githubusercontent.com/windy-civi/toolkit/main/schemas/govbot.schema.json\n");
    yml.append("$schema: https://raw.githubusercontent.com/windy-civi/toolkit/main/schemas/govbot.schema.json\n\n");
    yml.append("repos:\n");
    let lines = repos_list(repos);
    yml.append(lines.as_str());
    yml.append("\n");
    yml.append("tags:\n");
    let tags = tags_section(include_example_tag);
    yml.append(tags.as_str());
    yml.append("\n");
    yml.append("build:\n");
    yml.append("  base_url: \"");
    yml.append(base_url);
    yml.append("\"\n");
    yml.append("  output_dir: \"docs\"\n");
    yml.append("  output_file: \"feed.xml\"\n");
    yml
}

fn is_all(repos: &[String]) -> (r: bool)
    ensures
        r == is_all_repos(repos@),
{
    if repos.len() == 1 {
        let all = String::from_str("all");
        repos[0] == all
    } else {
        false
    }
}

fn sources_step(repos: &[String], locales: &[String]) -> (r: String)
    ensures
        r@ == sources_text(repos@, locales@),
{
    if is_all(repos) {
        let mut s = String::from_str("? What data sources do you want to track?\n");
        s.append("> All states (47 jurisdictions)\n");
        s.append("  Select specific states\n");
        s
    } else {
        let mut s = String::from_str("? What data sources do you want to track?\n");
        s.append("  All states (47 jurisdictions)\n");
        s.append("> Select specific states\n");
        s.append("\n");
        s.append("Available states/jurisdictions:\n");
        let listing = locale_listing(locales);
        s.append(listing.as_str());
        s.append("\n");
        s.append("? Enter state codes separated by spaces: ");
        let codes = joined(repos, 0, repos.len(), " ");
        assert(repos@.subrange(0, repos@.len() as int) =~= repos@);
        s.append(codes.as_str());
        s.append("\n");
        s
    }
}

/// The explanation of tags, with an example definition.
pub fn tags_intro() -> (r: String)
    ensures
        r@ == tags_intro_text(),
{
    let mut s = String::from_str("Tags let govbot categorize legislation by topics you care about.\n");
    s.append("Here's an example tag definition:\n\n");
    s.append("  education:\n");
    s.append("    description: |\n");
    s.append("      Legislation related to schools, education funding,\n");
    s.append("      curriculum standards, and educational policy.\n");
    s.append("    examples:\n");
    s.append("      - \"Increases per-pupil funding for public schools\"\n");
    s.append("      - \"Mandates comprehensive sex education curriculum\"\n\n");
    s
}

fn tags_choice(include_example_tag: bool) -> (r: String)
    ensures
        r@ == tags_choice_text(include_example_tag),
{
    if include_example_tag {
        let mut s = String::from_str("? How would you like to set up tags?\n");
        s.append("> Use the example \"education\" tag to start\n");
        s.append("  I'll create my own tags later\n");
        s
    } else {
        let mut s = String::from_str("? How would you like to set up tags?\n");
        s.append("  Use the example \"education\" tag to start\n");
        s.append("> I'll create my own tags later\n");
        s.append("\n");
        let prompt = ai_prompt_template();
        s.append(prompt.as_str());
        s
    }
}

impl WizardSession {
    /// The session for a set of answers, with `locales` the jurisdiction codes
    /// offered when specific states are chosen. Needs no interaction.
    pub fn from_choices(choices: &WizardChoices, locales: &[String]) -> (r: WizardSession)
        ensures
            r.display@ == display_text(
                choices.repos@,
                choices.include_example_tag,
                choices.base_url@,
                locales@,
            ),
            r.govbot_yml@ == govbot_yml_text(
                choices.repos@,
                choices.include_example_tag,
                choices.base_url@,
            ),
            r.workflow_yml@ == workflow_text(),
    {
        let mut display = String::from_str("Welcome to govbot! Let's set up your project.\n\n");
        let sources = sources_step(choices.repos.as_slice(), locales);
        display.append(sources.as_str());
        display.append("\n");
        let intro = tags_intro();
        display.append(intro.as_str());
        let choice = tags_choice(choices.include_example_tag);
        display.append(choice.as_str());
        display.append("\n");
        display.append("Publishing is configured for RSS feeds by default.\n");
        display.append("Your feeds will be generated in the \"docs\" directory.\n\n");
        display.append("? Base URL for your feeds: ");
        display.append(choices.base_url.as_str());
        display.append("\n\n");
        display.append("  ✓ Created govbot.yml\n");
        display.append("  ✓ Created .gitignore with .govbot\n");
        display.append("  ✓ Created .github/workflows/build.yml\n\n");
        display.append("Setup complete! Run 'govbot' again to start the pipeline.\n");
        let govbot_yml = generate_govbot_yml(
            choices.repos.as_slice(),
            choices.include_example_tag,
            choices.base_url.as_str(),
        );
        let workflow_yml = String::from_str(github_workflow_content());
        WizardSession { display, govbot_yml, workflow_yml }
    }

    /// The whole session as one document: what the user saw, then each file.
    pub fn to_snapshot(&self) -> (r: String)
        ensures
            r@ == snapshot_text(self.display@, self.govbot_yml@, self.workflow_yml@),
    {
        let mut out = String::from_str("=== Wizard Session ===\n\n");
        out.append(self.display.as_str());
        out.append("\n=== Generated: govbot.yml ===\n\n");
        out.append(self.govbot_yml.as_str());
        out.append("\n=== Generated: .github/workflows/build.yml ===\n\n");
        out.append(self.workflow_yml.as_str());
        out
    }
}


/// Whether `pat` occurs in `s` as a contiguous run.
pub open spec fn occurs_in(pat: Seq<char>, s: Seq<char>) -> bool {
    exists|i: int| 0 <= i && i + pat.len() <= s.len() && #[trigger] s.subrange(i, i + pat.len()) == pat
}

/// Relies on `str::contains`: true exactly when `pat` matches a substring of `s`.
#[verifier::external_body]
fn str_contains(s: &str, pat: &str) -> (r: bool)
    ensures
        r == occurs_in(pat@, s@),
{
    s.contains(pat)
}

/// Relies on `str::ends_with` with a `char` pattern: true exactly when the last
/// character of `s` is `c`.
#[verifier::external_body]
fn str_ends_with(s: &str, c: char) -> (r: bool)
    ensures
        r == (s@.len() > 0 && s@.last() == c),
{
    s.ends_with(c)
}

pub open spec fn ignore_entry_text() -> Seq<char> {
    ".govbot\n"@
}

/// The `.gitignore` content to write, given the current content if the file
/// exists; `None` when the file already mentions `.govbot` and stays as it is.
pub open spec fn gitignore_update_text(existing: Option<Seq<char>>) -> Option<Seq<char>> {
    match existing {
        None => Some(ignore_entry_text()),
        Some(c) => if occurs_in(".govbot"@, c) {
            None
        } else if c.len() > 0 && c.last() == '\n' {
            Some(c + ignore_entry_text())
        } else {
            Some(c + "\n"@ + ignore_entry_text())
        },
    }
}

/// The characters of an optional string.
pub open spec fn text_of(s: Option<&str>) -> Option<Seq<char>> {
    match s {
        Some(c) => Some(c@),
        None => None,
    }
}

/// Decides what `.gitignore` must hold so that the local `.govbot` directory is
/// ignored: a new file with the entry, the old content with the entry appended on
/// a line of its own, or no write at all when it is already mentioned.
pub fn gitignore_update(existing: Option<&str>) -> (r: Option<String>)
    ensures
        match r {
            Some(t) => gitignore_update_text(text_of(existing)) == Some(t@),
            None => gitignore_update_text(text_of(existing)) is None,
        },
{
    match existing {
        None => Some(String::from_str(".govbot\n")),
        Some(c) => {
            if str_contains(c, ".govbot") {
                None
            } else {
                let mut content = String::from_str(c);
                if !str_ends_with(c, '\n') {
                    content.append("\n");
                }
                content.append(".govbot\n");
                Some(content)
            }
        },
    }
}

/// Writing the `.gitignore` that an update produced, and updating again, leaves it
/// alone: the entry is then present.
pub proof fn lemma_gitignore_update_is_idempotent(existing: Option<Seq<char>>)
    ensures
        gitignore_update_text(existing) matches Some(t) ==> gitignore_update_text(Some(t)) is None,
{
    let pat = ".govbot"@;
    reveal_strlit(".govbot");
    reveal_strlit(".govbot\n");
    if let Some(t) = gitignore_update_text(existing) {
        let i = t.len() - 8;
        assert(t.subrange(i, i + pat.len()) =~= pat);
    }
}


/// What `str::split_whitespace` yields for `s`.
pub uninterp spec fn words_of(s: Seq<char>) -> Seq<Seq<char>>;

/// What `str::to_lowercase` yields for `s`.
pub uninterp spec fn lower_of(s: Seq<char>) -> Seq<char>;

/// The characters of each string, in order.
pub open spec fn texts(v: Seq<String>) -> Seq<Seq<char>> {
    v.map_values(|w: String| w@)
}

/// Relies on `str::split_whitespace`: the words of `s`, in order; the split
/// depends on the characters alone.
#[verifier::external_body]
fn split_words(s: &str) -> (r: Vec<String>)
    ensures
        texts(r@) == words_of(s@),
{
    s.split_whitespace().map(|w| w.to_string()).collect()
}

/// Relies on `str::to_lowercase`: the result depends on the characters alone.
#[verifier::external_body]
fn lowercase(s: &str) -> (r: String)
    ensures
        r@ == lower_of(s@),
{
    s.to_lowercase()
}

/// The non-empty codes of `codes`, in order.
pub open spec fn nonempty_codes(codes: Seq<Seq<char>>) -> Seq<Seq<char>>
    decreases codes.len(),
{
    if codes.len() == 0 {
        Seq::empty()
    } else if codes.last().len() > 0 {
        nonempty_codes(codes.drop_last()).push(codes.last())
    } else {
        nonempty_codes(codes.drop_last())
    }
}

/// The repositories chosen by typing codes: the non-empty ones, in order, or the
/// single sentinel `all` when none is left.
pub open spec fn repos_from_codes_text(codes: Seq<Seq<char>>) -> Seq<Seq<char>> {
    if nonempty_codes(codes).len() == 0 {
        seq!["all"@]
    } else {
        nonempty_codes(codes)
    }
}

/// The repositories for a list of typed codes that were already lower-cased.
pub fn repos_from_codes(codes: &Vec<String>) -> (r: Vec<String>)
    ensures
        texts(r@) == repos_from_codes_text(texts(codes@)),
{
    let mut kept: Vec<String> = Vec::new();
    let mut i: usize = 0;
    while i < codes.len()
        invariant
            i <= codes@.len(),
            texts(kept@) == nonempty_codes(texts(codes@.subrange(0, i as int))),
        decreases codes@.len() - i,
    {
        let ghost before = kept@;
        assert(texts(codes@.subrange(0, i + 1)).drop_last() =~= texts(codes@.subrange(0, i as int)));
        if codes[i].as_str().unicode_len() > 0 {
            kept.push(codes[i].clone());
            assert(texts(kept@) =~= texts(before).push(codes@[i as int]@));
        }
        i += 1;
    }
    assert(codes@.subrange(0, codes@.len() as int) =~= codes@);
    if kept.len() == 0 {
        let mut all: Vec<String> = Vec::new();
        all.push(String::from_str("all"));
        assert(texts(all@) =~= seq!["all"@]);
        all
    } else {
        kept
    }
}

/// The repositories for the sources question: the sentinel `all` when all
/// states were chosen, else the typed words, lower-cased, as `repos_from_codes`
/// keeps them.
pub fn repos_from_answer(all_states: bool, typed: &str) -> (r: Vec<String>)
    ensures
        all_states ==> texts(r@) == seq!["all"@],
        !all_states ==> texts(r@) == repos_from_codes_text(
            words_of(typed@).map_values(|w: Seq<char>| lower_of(w)),
        ),
{
    if all_states {
        let mut all: Vec<String> = Vec::new();
        all.push(String::from_str("all"));
        assert(texts(all@) =~= seq!["all"@]);
        return all;
    }
    let words = split_words(typed);
    let mut lowered: Vec<String> = Vec::new();
    let mut i: usize = 0;
    while i < words.len()
        invariant
            i <= words@.len(),
            texts(words@) == words_of(typed@),
            texts(lowered@) == texts(words@).subrange(0, i as int).map_values(
                |w: Seq<char>| lower_of(w),
            ),
        decreases words@.len() - i,
    {
        let ghost before = lowered@;
        let w = lowercase(words[i].as_str());
        assert(w@ == lower_of(texts(words@)[i as int]));
        lowered.push(w);
        assert(texts(lowered@) =~= texts(before).push(w@));
        assert(texts(lowered@) =~= texts(words@).subrange(0, i + 1).map_values(
            |w: Seq<char>| lower_of(w),
        ));
        i += 1;
    }
    assert(texts(words@).subrange(0, words@.len() as int) =~= texts(words@));
    repos_from_codes(&lowered)
}

} // verus!
