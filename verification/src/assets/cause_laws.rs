//! Why a preparation of models fails, and when it must.

use vstd::prelude::*;

use crate::assets::forecast_laws::{
    has_address, is_found, law_fields_are_required, law_missing_models_were_found_nowhere,
    law_only_missing_models_need_an_address, vad_address,
};
use crate::assets::laws::{
    after_run, answers, law_subscribers_hear_in_order, lemma_run_keeps_request, stepped, valid,
};
use crate::assets::outcome_laws::{brings_error, is_error_brought};
use crate::assets::preparation::{
    AssetModel, AssetReply, AssetStep, InstalledPackage, PreparedVad,
};
use crate::assets::{
    download_fault, incomplete_installation, required_field, AsrSurvey, FailureTracker,
    RootFindings,
};
use crate::config::LocalConfigModel;
use crate::error::HybridAsrResult;

verus! {

/// Whether a reply tells that a model is missing.
pub open spec fn tells_of_missing(reply: AssetReply) -> bool {
    match reply {
        AssetReply::Surveyed(survey) => !is_found(survey),
        AssetReply::VadChecked(Ok(missing)) => missing,
        _ => false,
    }
}

/// Whether a reply tells that an installation lacks the files of the model.
pub open spec fn tells_of_nothing(reply: AssetReply) -> bool {
    reply matches AssetReply::Inspected(found) && !found.configured_complete
        && !found.child_complete && !found.root_complete
}

/// What is said where something is missing that may not be downloaded, and what else may stand
/// against it.
pub open spec fn is_refusal<F>(config: LocalConfigModel<F>, message: Seq<char>) -> bool {
    let intro = "本地 ASR/VAD 模型缺失，且 auto_download=false，请先调用显式下载 API"@;
    ||| message == intro
    ||| exists|asr: bool, vad: bool| #[trigger]
        download_fault(config, asr, vad) is Some && message == intro + "；"@ + download_fault(
            config,
            asr,
            vad,
        )->0
}

/// Whether a preparation has a cause to fail with this message: an error that was brought to it, an
/// address that is not given for a recognition model that is missing, an installation without the
/// model, or something missing that may not be downloaded.
pub open spec fn has_cause<F>(
    config: LocalConfigModel<F>,
    replies: Seq<(AssetReply, Option<Seq<char>>)>,
    message: Seq<char>,
) -> bool {
    ||| is_error_brought(replies, message)
    ||| exists|i: int|
        #![trigger replies[i]]
        0 <= i < replies.len() && is_cause(config, replies[i].0, message)
}

/// Whether a reply is a cause, without an error, to fail with this message.
pub open spec fn is_cause<F>(
    config: LocalConfigModel<F>,
    reply: AssetReply,
    message: Seq<char>,
) -> bool {
    ||| tells_of_nothing(reply) && message == "安装目录中缺少 model.int8.onnx 或 tokens.txt"@
    ||| tells_of_missing(reply) && config.download_url is None && message
        == "本地 ASR 模型缺失，且 download_url 未配置"@
    ||| tells_of_missing(reply) && config.download_url is Some && !has_address(config.download_url)
        && message == "本地 ASR 模型缺失，且 download_url 为空"@
    ||| tells_of_missing(reply) && !config.auto_download && is_refusal(config, message)
}

proof fn lemma_own_words()
    ensures
        incomplete_installation() == "安装目录中缺少 model.int8.onnx 或 tokens.txt"@,
        "本地 ASR 模型缺失，且 "@ + "download_url"@ + " 未配置"@
            == "本地 ASR 模型缺失，且 download_url 未配置"@,
        "本地 ASR 模型缺失，且 "@ + "download_url"@ + " 为空"@
            == "本地 ASR 模型缺失，且 download_url 为空"@,
{
    reveal_strlit("安装目录中缺少 ");
    reveal_strlit("model.int8.onnx");
    reveal_strlit(" 或 ");
    reveal_strlit("tokens.txt");
    reveal_strlit("安装目录中缺少 model.int8.onnx 或 tokens.txt");
    reveal_strlit("本地 ASR 模型缺失，且 ");
    reveal_strlit("download_url");
    reveal_strlit(" 未配置");
    reveal_strlit(" 为空");
    reveal_strlit("本地 ASR 模型缺失，且 download_url 未配置");
    reveal_strlit("本地 ASR 模型缺失，且 download_url 为空");
    assert(incomplete_installation() =~= "安装目录中缺少 model.int8.onnx 或 tokens.txt"@);
    assert("本地 ASR 模型缺失，且 "@ + "download_url"@ + " 未配置"@
        =~= "本地 ASR 模型缺失，且 download_url 未配置"@);
    assert("本地 ASR 模型缺失，且 "@ + "download_url"@ + " 为空"@
        =~= "本地 ASR 模型缺失，且 download_url 为空"@);
}

/// Whether something is known to be missing only where a reply has told of it.
spec fn knows_missing<F>(
    machine: AssetModel<F>,
    replies: Seq<(AssetReply, Option<Seq<char>>)>,
) -> bool {
    machine.asr_missing || machine.vad_missing ==> exists|i: int|
        #![trigger replies[i]]
        0 <= i < replies.len() && tells_of_missing(replies[i].0)
}

/// Whether a failure that a reply leads to has its cause in the reply, or in what was missing.
spec fn fails_for_a_cause<F>(
    before: AssetModel<F>,
    reply: AssetReply,
    after: AssetModel<F>,
) -> bool {
    after.error matches Some(message) ==> {
        ||| before.error == Some(message)
        ||| brings_error(reply, message)
        ||| is_cause(before.config, reply, message)
        ||| (before.asr_missing || before.vad_missing) && !before.config.auto_download
            && is_refusal(before.config, message)
    }
}

/// Whether what is missing after a reply was missing before, or the reply tells of it.
spec fn misses_what_it_is_told<F>(
    before: AssetModel<F>,
    reply: AssetReply,
    after: AssetModel<F>,
) -> bool {
    after.asr_missing || after.vad_missing ==> before.asr_missing || before.vad_missing
        || tells_of_missing(reply)
}

proof fn lemma_survey_cause<F>(machine: AssetModel<F>, survey: AsrSurvey)
    requires
        valid(machine),
    ensures
        fails_for_a_cause(machine, AssetReply::Surveyed(survey), machine.surveyed(survey)),
        misses_what_it_is_told(machine, AssetReply::Surveyed(survey), machine.surveyed(survey)),
{
    let reply = AssetReply::Surveyed(survey);
    let after = machine.surveyed(survey);
    lemma_own_words();
    law_missing_models_were_found_nowhere(machine.config, survey);
    law_fields_are_required(machine.config.download_url, "download_url"@);
    match machine.step {
        AssetStep::SurveyMain => assert(fails_for_a_cause(machine, reply, after)),
        AssetStep::SurveyReady => assert(fails_for_a_cause(machine, reply, after)),
        AssetStep::SurveyFinal => assert(fails_for_a_cause(machine, reply, after)),
        _ => assert(fails_for_a_cause(machine, reply, after)),
    }
}

proof fn lemma_refusal<F>(machine: AssetModel<F>)
    ensures
        is_refusal(machine.config, machine.refusal()),
{
    let fault = download_fault(machine.config, machine.asr_missing, machine.vad_missing);
}

proof fn lemma_notice_cause<F>(machine: AssetModel<F>)
    requires
        valid(machine),
    ensures
        fails_for_a_cause(machine, AssetReply::Published, machine.published()),
        misses_what_it_is_told(machine, AssetReply::Published, machine.published()),
{
    lemma_refusal(machine);
}

proof fn lemma_vad_check_cause<F>(machine: AssetModel<F>, answer: HybridAsrResult<bool>)
    requires
        valid(machine),
    ensures
        fails_for_a_cause(machine, AssetReply::VadChecked(answer), machine.vad_checked(answer)),
        misses_what_it_is_told(
            machine,
            AssetReply::VadChecked(answer),
            machine.vad_checked(answer),
        ),
{
    lemma_refusal(machine);
}

proof fn lemma_inspection_cause<F>(machine: AssetModel<F>, found: RootFindings)
    requires
        valid(machine),
        machine.step == AssetStep::InspectInstallation,
    ensures
        fails_for_a_cause(machine, AssetReply::Inspected(found), machine.inspected(found)),
        misses_what_it_is_told(machine, AssetReply::Inspected(found), machine.inspected(found)),
{
    lemma_own_words();
}

proof fn lemma_vad_preparation_cause<F>(
    machine: AssetModel<F>,
    outcome: HybridAsrResult<PreparedVad>,
    failures: FailureTracker,
    parent: Option<Seq<char>>,
)
    requires
        valid(machine),
    ensures
        fails_for_a_cause(
            machine,
            AssetReply::VadPrepared(outcome, failures),
            machine.vad_prepared(outcome, failures, parent),
        ),
        misses_what_it_is_told(
            machine,
            AssetReply::VadPrepared(outcome, failures),
            machine.vad_prepared(outcome, failures, parent),
        ),
{
}

proof fn lemma_installation_cause<F>(
    machine: AssetModel<F>,
    outcome: HybridAsrResult<InstalledPackage>,
    failures: FailureTracker,
)
    requires
        valid(machine),
    ensures
        fails_for_a_cause(
            machine,
            AssetReply::Installed(outcome, failures),
            machine.installed(outcome, failures),
        ),
        misses_what_it_is_told(
            machine,
            AssetReply::Installed(outcome, failures),
            machine.installed(outcome, failures),
        ),
{
}

#[verifier::rlimit(30)]
proof fn lemma_step_cause<F>(machine: AssetModel<F>, reply: AssetReply, parent: Option<Seq<char>>)
    requires
        valid(machine),
    ensures
        fails_for_a_cause(machine, reply, stepped(machine, reply, parent)),
        misses_what_it_is_told(machine, reply, stepped(machine, reply, parent)),
{
    reveal(stepped);
    let after = machine.next(reply, parent);
    match reply {
        AssetReply::Surveyed(survey) => lemma_survey_cause(machine, survey),
        AssetReply::Published => lemma_notice_cause(machine),
        AssetReply::VadChecked(answer) => lemma_vad_check_cause(machine, answer),
        AssetReply::Installed(outcome, failures) => lemma_installation_cause(
            machine,
            outcome,
            failures,
        ),
        AssetReply::VadPrepared(outcome, failures) => lemma_vad_preparation_cause(
            machine,
            outcome,
            failures,
            parent,
        ),
        AssetReply::Inspected(found) => {
            if machine.step == AssetStep::InspectInstallation {
                lemma_inspection_cause(machine, found);
            }
        },
        AssetReply::Resolved(_) => {
            lemma_refusal(machine);
            assert(fails_for_a_cause(machine, reply, after));
        },
        AssetReply::VadLocated(_) => assert(fails_for_a_cause(machine, reply, after)),
    }
}

/// A preparation fails only for a cause that lies in the configuration and in what came back: it
/// succeeds where nothing fails, an installation holds the model, and what is missing may be
/// downloaded and has an address.
pub proof fn law_failures_have_causes<F>(
    config: LocalConfigModel<F>,
    explicit: bool,
    replies: Seq<(AssetReply, Option<Seq<char>>)>,
    message: Seq<char>,
)
    requires
        after_run(AssetModel::fresh(config, explicit), replies).error == Some(message),
    ensures
        has_cause(
            LocalConfigModel { auto_download: explicit || config.auto_download, ..config },
            replies,
            message,
        ),
{
    lemma_run_cause(config, explicit, replies);
}

proof fn lemma_run_cause<F>(
    config: LocalConfigModel<F>,
    explicit: bool,
    replies: Seq<(AssetReply, Option<Seq<char>>)>,
)
    ensures
        knows_missing(after_run(AssetModel::fresh(config, explicit), replies), replies),
        after_run(AssetModel::fresh(config, explicit), replies).error matches Some(message)
            ==> has_cause(
            LocalConfigModel { auto_download: explicit || config.auto_download, ..config },
            replies,
            message,
        ),
    decreases replies.len(),
{
    let fresh = AssetModel::fresh(config, explicit);
    if replies.len() > 0 {
        let earlier = replies.drop_last();
        let before = after_run(fresh, earlier);
        let after = after_run(fresh, replies);
        let last = replies.len() - 1;
        lemma_run_cause(config, explicit, earlier);
        lemma_run_keeps_request(fresh, earlier);
        law_subscribers_hear_in_order(config, explicit, earlier);
        lemma_step_cause(before, replies.last().0, replies.last().1);
        assert(replies[last] == replies.last());
        if before.asr_missing || before.vad_missing {
            let i = choose|i: int|
                #![trigger earlier[i]]
                0 <= i < earlier.len() && tells_of_missing(earlier[i].0);
            assert(replies[i] == earlier[i]);
            if let Some(message) = after.error {
                if !before.config.auto_download && is_refusal(before.config, message) {
                    assert(is_cause(before.config, replies[i].0, message));
                }
            }
        }
        if let Some(message) = after.error {
            if before.error == Some(message) {
                lemma_cause_lasts(before.config, replies, message);
            }
        }
    }
}

proof fn lemma_cause_lasts<F>(
    config: LocalConfigModel<F>,
    replies: Seq<(AssetReply, Option<Seq<char>>)>,
    message: Seq<char>,
)
    requires
        replies.len() > 0,
        has_cause(config, replies.drop_last(), message),
    ensures
        has_cause(config, replies, message),
{
    let earlier = replies.drop_last();
    if is_error_brought(earlier, message) {
        let i = choose|i: int|
            #![trigger earlier[i]]
            0 <= i < earlier.len() && brings_error(earlier[i].0, message);
        assert(replies[i] == earlier[i]);
    } else {
        let i = choose|i: int|
            #![trigger earlier[i]]
            0 <= i < earlier.len() && is_cause(config, earlier[i].0, message);
        assert(replies[i] == earlier[i]);
    }
}

/// Whether the error in a reply matters at a step. That the installation root cannot be made out
/// does not where the configured directory has the model; and where something is refused anyway,
/// the directory of its notice does not.
pub open spec fn error_matters<F>(machine: AssetModel<F>, reply: AssetReply) -> bool {
    match reply {
        AssetReply::Surveyed(survey) => !survey.main_complete || machine.step
            == AssetStep::SurveyReady || machine.step == AssetStep::SurveyFinal,
        AssetReply::Resolved(_) => machine.config.auto_download || machine.step
            == AssetStep::AsrFailedDir || machine.step == AssetStep::VadFailedDir,
        _ => true,
    }
}

/// An error that matters is not passed over: the preparation fails with its message.
pub proof fn law_errors_are_not_passed_over<F>(
    machine: AssetModel<F>,
    reply: AssetReply,
    parent: Option<Seq<char>>,
    message: Seq<char>,
)
    requires
        valid(machine),
        answers(machine.step, reply),
        brings_error(reply, message),
        error_matters(machine, reply),
    ensures
        machine.next(reply, parent).error == Some(message),
{
    match reply {
        AssetReply::Surveyed(_) => {
            match machine.step {
                AssetStep::SurveyMain => {},
                AssetStep::SurveyReady => {},
                AssetStep::SurveyFinal => {},
                _ => {},
            }
        },
        AssetReply::VadChecked(_) => {},
        AssetReply::Resolved(_) => {},
        AssetReply::Installed(_, _) => {},
        AssetReply::VadPrepared(_, _) => {},
        _ => {},
    }
}

/// What a refusal says: that downloads are off, and, where a model that is missing has no address,
/// that too.
pub proof fn law_refusals_say_what_stands_against_a_download<F>(machine: AssetModel<F>)
    ensures
        ({
            let intro = "本地 ASR/VAD 模型缺失，且 auto_download=false，请先调用显式下载 API"@;
            let config = machine.config;
            let asr_ready = machine.asr_missing ==> has_address(config.download_url);
            let vad_ready = machine.vad_missing ==> has_address(vad_address(config));
            &&& asr_ready && vad_ready ==> machine.refusal() == intro
            &&& !asr_ready ==> machine.refusal() == intro + "；"@ + required_field(
                config.download_url,
                "download_url"@,
            )->Err_0
            &&& asr_ready && !vad_ready ==> machine.refusal() == intro + "；"@ + required_field(
                vad_address(config),
                "vad_download_url"@,
            )->Err_0
        }),
{
    law_only_missing_models_need_an_address(
        machine.config,
        machine.asr_missing,
        machine.vad_missing,
    );
}

} // verus!
