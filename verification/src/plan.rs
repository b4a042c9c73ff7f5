//! What is fetched for one episode and where it is put: the remote URL, the
//! local path and the label of the progress display, all derived from the
//! episode's position and title.

use crate::sanitize::{is_safe_name, sanitize, sanitized};
use crate::token::{decimal_digits, episode_token, episode_token_chars, format_decimal};
use vstd::prelude::*;
use vstd::string::StringExecFns;

verus! {

/// The address of the catalog page.
pub const CATALOG_URL: &'static str = "https://watch-dbz52.funonline.co.in/dragon-ball-z/";

/// The address below which the episodes are filed.
pub const BASE_URL: &'static str = "https://dbz.watch-dbs.com/v/";

/// The extension of an episode, remote and local.
pub const MEDIA_EXTENSION: &'static str = ".mp4";

/// The directory that receives the episodes.
pub const OUTPUT_DIR: &'static str = "./downloads";

/// Where a run reads and writes.
pub struct Config {
    /// The address of the catalog page.
    pub catalog_url: String,
    /// The address that an episode's token is appended to.
    pub base_url: String,
    /// The extension of an episode, remote and local.
    pub extension: String,
    /// The directory that receives the episodes.
    pub output_dir: String,
}

/// A `Config` as contracts see it.
pub struct ConfigView {
    pub catalog_url: Seq<char>,
    pub base_url: Seq<char>,
    pub extension: Seq<char>,
    pub output_dir: Seq<char>,
}

impl View for Config {
    type V = ConfigView;

    open spec fn view(&self) -> ConfigView {
        ConfigView {
            catalog_url: self.catalog_url@,
            base_url: self.base_url@,
            extension: self.extension@,
            output_dir: self.output_dir@,
        }
    }
}

/// The configuration that reads the fixed catalog and writes below
/// `OUTPUT_DIR`.
pub open spec fn default_config() -> ConfigView {
    ConfigView {
        catalog_url: CATALOG_URL@,
        base_url: BASE_URL@,
        extension: MEDIA_EXTENSION@,
        output_dir: OUTPUT_DIR@,
    }
}

impl Default for Config {
    fn default() -> (r: Config)
        ensures
            r@ == default_config(),
    {
        Config {
            catalog_url: String::from_str(CATALOG_URL),
            base_url: String::from_str(BASE_URL),
            extension: String::from_str(MEDIA_EXTENSION),
            output_dir: String::from_str(OUTPUT_DIR),
        }
    }
}

impl Config {
    /// The default configuration with another output directory.
    pub fn with_output_dir(output_dir: &str) -> (r: Config)
        ensures
            r@ == (ConfigView { output_dir: output_dir@, ..default_config() }),
    {
        Config {
            catalog_url: String::from_str(CATALOG_URL),
            base_url: String::from_str(BASE_URL),
            extension: String::from_str(MEDIA_EXTENSION),
            output_dir: String::from_str(output_dir),
        }
    }
}

/// One episode's download: what to request, where to write it and how to
/// label its progress.
pub struct EpisodePlan {
    /// The zero-based position of the episode in the listing.
    pub index: usize,
    /// The number of episodes in the listing.
    pub total: usize,
    /// The token of the episode in the remote URL.
    pub token: String,
    /// The stem of the local file name.
    pub stem: String,
    /// The remote URL.
    pub url: String,
    /// The local path.
    pub path: String,
    /// The label of the progress display.
    pub label: String,
}

/// An `EpisodePlan` as contracts see it.
pub struct EpisodePlanView {
    pub index: nat,
    pub total: nat,
    pub token: Seq<char>,
    pub stem: Seq<char>,
    pub url: Seq<char>,
    pub path: Seq<char>,
    pub label: Seq<char>,
}

impl View for EpisodePlan {
    type V = EpisodePlanView;

    open spec fn view(&self) -> EpisodePlanView {
        EpisodePlanView {
            index: self.index as nat,
            total: self.total as nat,
            token: self.token@,
            stem: self.stem@,
            url: self.url@,
            path: self.path@,
            label: self.label@,
        }
    }
}

/// The remote URL of the episode with token `token`.
pub open spec fn episode_url(config: ConfigView, token: Seq<char>) -> Seq<char> {
    config.base_url + token + config.extension
}

/// The local path of the episode with file name stem `stem`.
pub open spec fn episode_path(config: ConfigView, stem: Seq<char>) -> Seq<char> {
    config.output_dir + seq!['/'] + stem + config.extension
}

/// The label of the progress display of the episode with token `token`
/// among `total` episodes.
pub open spec fn episode_label(token: Seq<char>, total: nat) -> Seq<char> {
    seq![' ', '['] + token + seq!['/'] + decimal_digits(total) + seq![']']
}

/// The plan of the episode at position `index` of a listing of `total`
/// titles, whose title is `title`.
pub open spec fn planned(
    config: ConfigView,
    index: nat,
    title: Seq<char>,
    total: nat,
) -> EpisodePlanView {
    EpisodePlanView {
        index,
        total,
        token: episode_token_chars(index),
        stem: sanitized(title),
        url: episode_url(config, episode_token_chars(index)),
        path: episode_path(config, sanitized(title)),
        label: episode_label(episode_token_chars(index), total),
    }
}

/// Builds the remote URL of an episode from its token.
pub fn build_url(config: &Config, token: &str) -> (r: String)
    ensures
        r@ == episode_url(config@, token@),
{
    let mut url = config.base_url.clone();
    url.append(token);
    url.append(config.extension.as_str());
    url
}

/// Builds the local path of an episode from its file name stem.
pub fn build_path(config: &Config, stem: &str) -> (r: String)
    ensures
        r@ == episode_path(config@, stem@),
{
    proof {
        reveal_strlit("/");
    }
    let mut path = config.output_dir.clone();
    path.append("/");
    path.append(stem);
    path.append(config.extension.as_str());
    assert(path@ =~= episode_path(config@, stem@));
    path
}

/// Builds the label of an episode's progress display.
pub fn build_label(token: &str, total: usize) -> (r: String)
    ensures
        r@ == episode_label(token@, total as nat),
{
    proof {
        reveal_strlit(" [");
        reveal_strlit("/");
        reveal_strlit("]");
    }
    let count = format_decimal(total as u128);
    let mut label = String::from_str(" [");
    label.append(token);
    label.append("/");
    label.append(count.as_str());
    label.append("]");
    assert(label@ =~= episode_label(token@, total as nat));
    label
}

/// Plans the download of the episode at position `index` of a listing of
/// `total` titles: its token by position, its file name stem by title.
pub fn plan_episode(config: &Config, index: usize, title: &str, total: usize) -> (r: EpisodePlan)
    ensures
        r@ == planned(config@, index as nat, title@, total as nat),
        is_safe_name(r.stem@),
{
    let token = episode_token(index);
    let stem = sanitize(title);
    let url = build_url(config, token.as_str());
    let path = build_path(config, stem.as_str());
    let label = build_label(token.as_str(), total);
    EpisodePlan { index, total, token, stem, url, path, label }
}

} // verus!
