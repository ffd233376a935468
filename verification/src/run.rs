//! Whole runs: what the machine asks for, from the first action to the
//! last, whatever the outside world answers.
//!
//! The theorems here hold of every sequence of events, well-behaved or
//! not. Together they say that a run logs in once, sends the certificate
//! before the key, presents in each upload the token that the login
//! returned, and stops for good at the first failure.

use crate::error::{ErrorKind, ErrorView};
use crate::model::{
    begin, endpoint, lemma_upload_url_parameters, login_call, login_outcome,
    privilege_parameter, step, token_parameter, upload_request,
};
use crate::session::{
    Action, ActionView, Credentials, CredentialsView, Event, EventView, Session, SessionView,
};
use crate::text::occurs_in;
use crate::wire::{Artifact, LoginResultView, UploadCertResult};
use vstd::prelude::*;

verus! {

/// The actions that `session` gives out in answer to `events`, one for
/// each event, until it closes. Events that arrive after the session has
/// closed are not looked at.
pub open spec fn follow(session: SessionView, events: Seq<EventView>) -> Seq<ActionView>
    decreases events.len(),
{
    if events.len() == 0 || session is Closed {
        Seq::empty()
    } else {
        let next = step(session, events[0]);
        seq![next.1] + follow(next.0, events.drop_first())
    }
}

/// Every action of the run that is made for `credentials` and meets
/// `events`: the opening action, then one action for each event.
pub open spec fn run(credentials: CredentialsView, events: Seq<EventView>) -> Seq<ActionView> {
    seq![begin(credentials).1] + follow(begin(credentials).0, events)
}

/// Where `session` stands after it has met `events`.
pub open spec fn land(session: SessionView, events: Seq<EventView>) -> SessionView
    decreases events.len(),
{
    if events.len() == 0 || session is Closed {
        session
    } else {
        land(step(session, events[0]).0, events.drop_first())
    }
}

/// Mathematical value of a list of events.
pub open spec fn events_view(events: Seq<Event>) -> Seq<EventView> {
    events.map_values(|event: Event| event@)
}

/// Mathematical value of a list of actions.
pub open spec fn actions_view(actions: Seq<Action>) -> Seq<ActionView> {
    actions.map_values(|action: Action| action@)
}

/// Whether an action ends the run.
pub open spec fn is_final(action: ActionView) -> bool {
    action is Finish || action is Abort
}

/// A step that gives out a final action closes the session, and a step
/// that closes the session gives out a final action.
pub proof fn lemma_final_action_closes(session: SessionView, event: EventView)
    ensures
        is_final(step(session, event).1) <==> step(session, event).0 is Closed,
{
}

/// Nothing follows a final action: where a session gives out `Finish` or
/// `Abort`, that is the last thing it gives out.
pub proof fn lemma_follow_stops(session: SessionView, events: Seq<EventView>, i: int)
    requires
        0 <= i < follow(session, events).len(),
        is_final(follow(session, events)[i]),
    ensures
        i == follow(session, events).len() - 1,
    decreases events.len(),
{
    let next = step(session, events[0]);
    let rest = events.drop_first();
    if i == 0 {
        assert(next.0 is Closed);
        assert(follow(next.0, rest) =~= Seq::empty());
    } else {
        assert(follow(session, events)[i] == follow(next.0, rest)[i - 1]);
        lemma_follow_stops(next.0, rest, i - 1);
    }
}

/// Every failure is fatal, and success is the end: in every run, a final
/// action is the last action.
pub proof fn lemma_run_stops(credentials: CredentialsView, events: Seq<EventView>, i: int)
    requires
        0 <= i < run(credentials, events).len(),
        is_final(run(credentials, events)[i]),
    ensures
        i == run(credentials, events).len() - 1,
{
    let opening = begin(credentials);
    assert(i > 0);
    assert(run(credentials, events)[i] == follow(opening.0, events)[i - 1]);
    lemma_follow_stops(opening.0, events, i - 1);
}

/// What the plan of a run foresees at each place after the login call:
/// read the certificate, send it, read the key, send it, finish.
pub open spec fn planned(place: int, action: ActionView) -> bool {
    if place == 1 {
        action == ActionView::Read(Artifact::Certificate)
    } else if place == 2 {
        action is Upload
    } else if place == 3 {
        action == ActionView::Read(Artifact::Key)
    } else if place == 4 {
        action is Upload
    } else {
        place == 5 && action is Finish
    }
}

/// Every run follows the one plan. It opens with the login call; each
/// later action is the one that the plan foresees at its place, or an
/// abort; and it has six actions at most. So no run logs in twice, sends
/// more than two files, or sends anything before it has logged in.
pub proof fn lemma_run_follows_plan(credentials: CredentialsView, events: Seq<EventView>)
    ensures
        1 <= run(credentials, events).len() <= 6,
        run(credentials, events).len() <= events.len() + 1,
        run(credentials, events)[0] == ActionView::Login(
            login_call(credentials.host, credentials.username, credentials.password),
        ),
        forall|place: int|
            1 <= place < run(credentials, events).len() ==> {
                ||| #[trigger] run(credentials, events)[place] is Abort
                ||| planned(place, run(credentials, events)[place])
            },
{
    reveal_with_fuel(follow, 7);
}

/// An upload is only ever made within the session that the login opened.
///
/// Where a run sends a file, the appliance had answered the login call
/// with success and a token; the upload is the one built from that very
/// token, the matching endpoint and the bytes that were read just before;
/// and its address therefore carries the access tier and that token as
/// literal query parameters.
pub proof fn lemma_upload_presents_login_token(
    credentials: CredentialsView,
    events: Seq<EventView>,
    place: int,
)
    requires
        0 <= place < run(credentials, events).len(),
        run(credentials, events)[place] is Upload,
    ensures
        place == 2 || place == 4,
        events.len() >= place,
        events[0] matches EventView::LoginReplied(reply) && login_outcome(reply) matches Ok(tid)
            && events[place - 1] matches EventView::FileRead(content) && {
            let request = run(credentials, events)[place]->Upload_0;
            let artifact = if place == 2 {
                Artifact::Certificate
            } else {
                Artifact::Key
            };
            &&& request == upload_request(credentials.host, tid, endpoint(artifact), content)
            &&& occurs_in(privilege_parameter(), request.url)
            &&& occurs_in(token_parameter(tid), request.url)
        },
{
    reveal_with_fuel(follow, 7);
    lemma_run_follows_plan(credentials, events);
    let tid = login_outcome(events[0]->LoginReplied_0)->Ok_0;
    lemma_upload_url_parameters(credentials.host, endpoint(Artifact::Certificate), tid);
    lemma_upload_url_parameters(credentials.host, endpoint(Artifact::Key), tid);
}

/// A login that yields no token ends the run on the spot: the run consists
/// of the login call and the abort, and no upload is ever asked for.
///
/// This covers the answer that reports failure, whatever else it holds, and
/// the answer that reports success without a token.
pub proof fn lemma_refused_login_ends_run(
    credentials: CredentialsView,
    events: Seq<EventView>,
    reply: LoginResultView,
)
    requires
        events.len() > 0,
        events[0] == EventView::LoginReplied(reply),
        !reply.success || reply.tid is None,
    ensures
        login_outcome(reply) is Err,
        login_outcome(reply)->Err_0.kind() == ErrorKind::Authentication,
        !reply.success ==> login_outcome(reply) == Err::<Seq<char>, ErrorView>(
            ErrorView::LoginRejected,
        ),
        run(credentials, events) =~= seq![
            begin(credentials).1,
            ActionView::Abort(login_outcome(reply)->Err_0),
        ],
{
    reveal_with_fuel(follow, 3);
}

/// A login call that got no usable answer ends the run in the same way.
pub proof fn lemma_unanswered_login_ends_run(
    credentials: CredentialsView,
    events: Seq<EventView>,
    detail: Seq<char>,
)
    requires
        events.len() > 0,
        events[0] == EventView::Failed(detail),
    ensures
        run(credentials, events) =~= seq![
            begin(credentials).1,
            ActionView::Abort(ErrorView::LoginUnanswered { detail }),
        ],
{
    reveal_with_fuel(follow, 3);
}

/// A file that cannot be read ends the run before anything is sent for
/// it: the session answers with the abort and nothing else.
pub proof fn lemma_unreadable_file_ends_run(
    session: SessionView,
    events: Seq<EventView>,
    detail: Seq<char>,
)
    requires
        session is Reading,
        events.len() > 0,
        events[0] == EventView::Failed(detail),
    ensures
        follow(session, events) =~= seq![
            ActionView::Abort(ErrorView::FileUnreadable { detail }),
        ],
{
    reveal_with_fuel(follow, 2);
}

/// An upload that the appliance refuses ends the run: the session answers
/// with the abort, and no further file is read or sent.
pub proof fn lemma_refused_upload_ends_run(
    session: SessionView,
    events: Seq<EventView>,
    reply: UploadCertResult,
)
    requires
        session is Uploading,
        events.len() > 0,
        events[0] == EventView::UploadReplied(reply),
        !reply.success,
    ensures
        follow(session, events) =~= seq![ActionView::Abort(ErrorView::UploadRejected)],
{
    reveal_with_fuel(follow, 2);
}

/// Where the appliance refuses the certificate, the key is never sent: the
/// run is the login call, the reading and sending of the certificate, and
/// the abort, whatever events are still in store.
pub proof fn lemma_refused_certificate_ends_run(
    credentials: CredentialsView,
    events: Seq<EventView>,
    tid: Seq<char>,
    certificate: Seq<u8>,
    reply: UploadCertResult,
)
    requires
        events.len() >= 3,
        events[0] matches EventView::LoginReplied(login) && login_outcome(login) == Ok::<
            Seq<char>,
            ErrorView,
        >(tid),
        events[1] == EventView::FileRead(certificate),
        events[2] == EventView::UploadReplied(reply),
        !reply.success,
    ensures
        run(credentials, events) =~= seq![
            begin(credentials).1,
            ActionView::Read(Artifact::Certificate),
            ActionView::Upload(
                upload_request(
                    credentials.host,
                    tid,
                    endpoint(Artifact::Certificate),
                    certificate,
                ),
            ),
            ActionView::Abort(ErrorView::UploadRejected),
        ],
{
    reveal_with_fuel(follow, 5);
}

/// Where every answer is good, the run is the whole plan: log in, read and
/// send the certificate, read and send the key, finish. Both uploads go to
/// the host of the login, under the token that it returned, and carry the
/// bytes that were read.
pub proof fn lemma_complete_run(
    credentials: CredentialsView,
    events: Seq<EventView>,
    tid: Seq<char>,
    certificate: Seq<u8>,
    key: Seq<u8>,
)
    requires
        events.len() >= 5,
        events[0] matches EventView::LoginReplied(login) && login_outcome(login) == Ok::<
            Seq<char>,
            ErrorView,
        >(tid),
        events[1] == EventView::FileRead(certificate),
        events[2] matches EventView::UploadReplied(reply) && reply.success,
        events[3] == EventView::FileRead(key),
        events[4] matches EventView::UploadReplied(reply) && reply.success,
    ensures
        run(credentials, events) =~= seq![
            begin(credentials).1,
            ActionView::Read(Artifact::Certificate),
            ActionView::Upload(
                upload_request(
                    credentials.host,
                    tid,
                    endpoint(Artifact::Certificate),
                    certificate,
                ),
            ),
            ActionView::Read(Artifact::Key),
            ActionView::Upload(
                upload_request(credentials.host, tid, endpoint(Artifact::Key), key),
            ),
            ActionView::Finish,
        ],
{
    reveal_with_fuel(follow, 7);
}

/// One more event at the end of a list adds one action, the step from
/// where the session stood, unless the session had closed by then.
pub proof fn lemma_follow_one_more(session: SessionView, events: Seq<EventView>, event: EventView)
    ensures
        land(session, events) is Closed ==> {
            &&& land(session, events.push(event)) is Closed
            &&& follow(session, events.push(event)) == follow(session, events)
        },
        !(land(session, events) is Closed) ==> {
            &&& land(session, events.push(event)) == step(land(session, events), event).0
            &&& follow(session, events.push(event)) == follow(session, events).push(
                step(land(session, events), event).1,
            )
        },
    decreases events.len(),
{
    let longer = events.push(event);
    if session is Closed {
    } else if events.len() == 0 {
        let next = step(session, event);
        assert(longer.drop_first() =~= Seq::<EventView>::empty());
        assert(land(next.0, longer.drop_first()) == next.0);
        assert(follow(next.0, longer.drop_first()) =~= Seq::<ActionView>::empty());
        assert(follow(session, longer) =~= follow(session, events).push(next.1));
    } else {
        let next = step(session, events[0]);
        let rest = events.drop_first();
        assert(longer.drop_first() =~= rest.push(event));
        lemma_follow_one_more(next.0, rest, event);
        if !(land(session, events) is Closed) {
            let last = step(land(session, events), event).1;
            assert(seq![next.1] + follow(next.0, rest).push(last) =~= (seq![next.1] + follow(
                next.0,
                rest,
            )).push(last));
        }
    }
}

/// Plays a recorded sequence of events against a fresh run and returns
/// every action that the run asks for, the login call first. Nothing is
/// sent or read: this is the run as [`run`] defines it, computed.
pub fn replay(credentials: &Credentials, events: Vec<Event>) -> (actions: Vec<Action>)
    ensures
        actions_view(actions@) == run(credentials@, events_view(events@)),
{
    let ghost recorded = events_view(events@);
    let ghost opening = begin(credentials@);
    let (first_session, first_action) = Session::begin(credentials);
    let mut session = first_session;
    let mut actions: Vec<Action> = Vec::new();
    actions.push(first_action);
    assert(actions_view(actions@) =~= seq![opening.1]);
    assert(recorded.take(0) =~= Seq::<EventView>::empty());
    for event in it: events.into_iter()
        invariant
            opening == begin(credentials@),
            recorded == events_view(it.seq()),
            session@ == land(opening.0, recorded.take(it.index() as int)),
            actions_view(actions@) == seq![opening.1] + follow(
                opening.0,
                recorded.take(it.index() as int),
            ),
    {
        proof {
            let met = recorded.take(it.index() as int);
            assert(recorded.take(it.index() + 1) =~= met.push(event@));
            lemma_follow_one_more(opening.0, met, event@);
        }
        if !session.is_closed() {
            let ghost before = actions@;
            let (next, action) = session.step(event);
            session = next;
            actions.push(action);
            assert(actions_view(actions@) =~= actions_view(before).push(action@));
        }
    }
    assert(recorded.take(recorded.len() as int) =~= recorded);
    actions
}

} // verus!
