use vstd::prelude::*;
use vstd::string::StringExecFns;
use crate::group::members::member_key;
use crate::group::model::{
    role_access, role_access_level, ArchiveGroupSpaceCommand, GroupMember, MembershipSyncCommand,
    ReserveGroupSpaceRequest,
};
use crate::hashing::{sha256_hash, sha256_of_text};
use crate::sorting::{sort_texts, text_order, texts};

verus! {

/// The decimal digits of a number.
pub open spec fn decimal(n: nat) -> Seq<char>
    decreases n,
{
    if n < 10 {
        seq![digit_char(n)]
    } else {
        decimal(n / 10).push(digit_char(n % 10))
    }
}

/// The digit character of a number below ten.
pub open spec fn digit_char(d: nat) -> char {
    if d == 0 {
        '0'
    } else if d == 1 {
        '1'
    } else if d == 2 {
        '2'
    } else if d == 3 {
        '3'
    } else if d == 4 {
        '4'
    } else if d == 5 {
        '5'
    } else if d == 6 {
        '6'
    } else if d == 7 {
        '7'
    } else if d == 8 {
        '8'
    } else {
        '9'
    }
}

fn digit_text(d: u64) -> (result: &'static str)
    requires
        d < 10,
    ensures
        result@ == seq![digit_char(d as nat)],
{
    proof {
        reveal_strlit("0");
        reveal_strlit("1");
        reveal_strlit("2");
        reveal_strlit("3");
        reveal_strlit("4");
        reveal_strlit("5");
        reveal_strlit("6");
        reveal_strlit("7");
        reveal_strlit("8");
        reveal_strlit("9");
    }
    if d == 0 {
        "0"
    } else if d == 1 {
        "1"
    } else if d == 2 {
        "2"
    } else if d == 3 {
        "3"
    } else if d == 4 {
        "4"
    } else if d == 5 {
        "5"
    } else if d == 6 {
        "6"
    } else if d == 7 {
        "7"
    } else if d == 8 {
        "8"
    } else {
        "9"
    }
}

fn push_decimal(out: &mut String, n: u64)
    ensures
        final(out)@ == old(out)@ + decimal(n as nat),
    decreases n,
{
    if n >= 10 {
        push_decimal(out, n / 10);
    }
    out.append(digit_text(n % 10));
}

/// Writes a number in decimal (`u64::to_string`).
pub fn decimal_text(n: u64) -> (result: String)
    ensures
        result@ == decimal(n as nat),
{
    let mut out = String::new();
    push_decimal(&mut out, n);
    assert(out@ =~= decimal(n as nat));
    out
}

/// Parts joined with the NUL character between them.
pub open spec fn joined(parts: Seq<Seq<char>>) -> Seq<char>
    decreases parts.len(),
{
    if parts.len() == 0 {
        seq![]
    } else if parts.len() == 1 {
        parts[0]
    } else {
        joined(parts.drop_last()) + seq!['\0'] + parts.last()
    }
}

/// Joins texts with NUL separators (`join("\u{0}")`).
pub fn join_with_nul(parts: &Vec<String>) -> (result: String)
    ensures
        result@ == joined(texts(parts@)),
{
    let mut out = String::new();
    let mut i: usize = 0;
    proof {
        reveal_strlit("\0");
        assert(texts(parts@).take(0) =~= Seq::<Seq<char>>::empty());
    }
    while i < parts.len()
        invariant
            i <= parts@.len(),
            out@ == joined(texts(parts@).take(i as int)),
        decreases parts.len() - i,
    {
        let ghost before = texts(parts@).take(i as int);
        if i > 0 {
            proof {
                reveal_strlit("\0");
            }
            out.append("\0");
        }
        out.append(parts[i].as_str());
        proof {
            let next = texts(parts@).take(i as int + 1);
            assert(next.drop_last() =~= before);
            assert(next.last() == parts@[i as int]@);
            if i == 0 {
                assert(next.len() == 1);
                assert(out@ =~= next[0]);
            } else {
                assert("\0"@ =~= seq!['\0']);
                assert(out@ =~= joined(before) + seq!['\0'] + next.last());
            }
        }
        i = i + 1;
    }
    proof {
        assert(texts(parts@).take(parts@.len() as int) =~= texts(parts@));
    }
    out
}

/// The normalized text of a member: principal kind, actor, role and the
/// role's access level (or `none`), separated by colons.
pub open spec fn member_text(m: GroupMember) -> Seq<char> {
    m.principal_kind.spec_code() + seq![':'] + m.actor_id@ + seq![':'] + m.role.spec_code() + seq![
        ':',
    ] + match role_access(m.role) {
        Some(level) => level.spec_code(),
        None => seq!['n', 'o', 'n', 'e'],
    }
}

/// The normalized texts of a member list, in list order.
pub open spec fn member_texts(ms: Seq<GroupMember>) -> Seq<Seq<char>> {
    ms.map_values(|m: GroupMember| member_text(m))
}

/// Writes the normalized text of a member.
pub fn member_normalized_text(member: &GroupMember) -> (result: String)
    ensures
        result@ == member_text(*member),
{
    proof {
        reveal_strlit(":");
        reveal_strlit("none");
    }
    let mut out = String::from_str(member.principal_kind.as_str());
    out.append(":");
    out.append(member.actor_id.as_str());
    out.append(":");
    out.append(member.role.as_str());
    out.append(":");
    match role_access_level(member.role) {
        Some(level) => out.append(level.as_str()),
        None => out.append("none"),
    }
    assert(out@ =~= member_text(*member));
    out
}

/// The sorted normalized member texts of a snapshot.
pub fn normalized_members(members: &Vec<GroupMember>) -> (result: Vec<String>)
    ensures
        texts(result@) == member_texts(members@).sort_by(text_order()),
{
    let mut keys: Vec<String> = Vec::new();
    let mut i: usize = 0;
    while i < members.len()
        invariant
            i <= members@.len(),
            texts(keys@) =~= member_texts(members@).take(i as int),
        decreases members.len() - i,
    {
        let key = member_normalized_text(&members[i]);
        let ghost before = keys@;
        keys.push(key);
        proof {
            assert(keys@ == before.push(key));
            assert(texts(keys@) =~= texts(before).push(key@));
            assert(member_texts(members@).take(i as int + 1) =~= member_texts(members@).take(
                i as int,
            ).push(member_text(members@[i as int])));
        }
        i = i + 1;
    }
    proof {
        assert(member_texts(members@).take(members@.len() as int) =~= member_texts(members@));
    }
    sort_texts(&keys)
}

/// The fingerprint preimage of an ensure request.
pub open spec fn reservation_parts(r: ReserveGroupSpaceRequest) -> Seq<Seq<char>> {
    seq![
        seq!['e', 'n', 's', 'u', 'r', 'e'],
        r.conversation_id@,
        r.group_name@,
        decimal(r.membership_epoch as nat),
        sha256_of_text(r.provisioning_idempotency_key@),
    ] + member_texts(r.members@).sort_by(text_order())
}

/// The fingerprint preimage of a membership synchronization.
pub open spec fn membership_parts(c: MembershipSyncCommand) -> Seq<Seq<char>> {
    seq![
        seq!['m', 'e', 'm', 'b', 'e', 'r', 's', 'h', 'i', 'p', '_', 's', 'y', 'n', 'c'],
        c.conversation_id@,
        c.group_name@,
        decimal(c.target.knowledgebase_binding_id as nat),
        c.target.knowledgebase_binding_uuid@,
        decimal(c.target.knowledge_space_id as nat),
        c.target.knowledge_space_uuid@,
        decimal(c.membership_epoch as nat),
        decimal(c.upstream_link_generation as nat),
    ] + member_texts(c.members@).sort_by(text_order())
}

/// The fingerprint preimage of an archive command.
pub open spec fn archive_parts(c: ArchiveGroupSpaceCommand) -> Seq<Seq<char>> {
    seq![
        seq!['a', 'r', 'c', 'h', 'i', 'v', 'e'],
        c.conversation_id@,
        decimal(c.target.knowledgebase_binding_id as nat),
        c.target.knowledgebase_binding_uuid@,
        decimal(c.target.knowledge_space_id as nat),
        c.target.knowledge_space_uuid@,
        decimal(c.membership_epoch as nat),
        decimal(c.upstream_link_generation as nat),
        c.archived_by@,
    ]
}

fn append_all(out: &mut Vec<String>, more: Vec<String>)
    ensures
        texts(final(out)@) == texts(old(out)@) + texts(more@),
{
    let mut rest = more;
    let ghost initial = texts(old(out)@);
    let ghost extra = texts(more@);
    let mut i: usize = 0;
    let n = rest.len();
    let mut taken: Vec<String> = Vec::new();
    while i < n
        invariant
            n == more@.len(),
            i <= n,
            texts(out@) =~= initial + extra.take(i as int),
            extra == texts(more@),
            rest@ == more@,
        decreases n - i,
    {
        let item = rest[i].clone();
        let ghost before = out@;
        out.push(item);
        proof {
            assert(out@ == before.push(item));
            assert(texts(out@) =~= texts(before).push(item@));
            assert(extra.take(i as int + 1) =~= extra.take(i as int).push(more@[i as int]@));
        }
        i = i + 1;
    }
    proof {
        assert(extra.take(n as int) =~= extra);
    }
}

fn text_of(s: &str) -> (result: String)
    ensures
        result@ == s@,
{
    String::from_str(s)
}

/// The SHA-256 fingerprint of an ensure request.
pub fn reservation_fingerprint(request: &ReserveGroupSpaceRequest) -> (result: String)
    ensures
        result@ == sha256_of_text(joined(reservation_parts(*request))),
{
    proof {
        reveal_strlit("ensure");
    }
    let mut parts: Vec<String> = Vec::new();
    parts.push(text_of("ensure"));
    parts.push(request.conversation_id.clone());
    parts.push(request.group_name.clone());
    parts.push(decimal_text(request.membership_epoch));
    parts.push(sha256_hash(request.provisioning_idempotency_key.as_str()));
    assert("ensure"@ =~= seq!['e', 'n', 's', 'u', 'r', 'e']);
    let ghost head = texts(parts@);
    append_all(&mut parts, normalized_members(&request.members));
    assert(head =~= seq![
        seq!['e', 'n', 's', 'u', 'r', 'e'],
        request.conversation_id@,
        request.group_name@,
        decimal(request.membership_epoch as nat),
        sha256_of_text(request.provisioning_idempotency_key@),
    ]);
    assert(texts(parts@) =~= reservation_parts(*request));
    let preimage = join_with_nul(&parts);
    sha256_hash(preimage.as_str())
}

/// The SHA-256 fingerprint of a membership synchronization.
pub fn membership_command_fingerprint(command: &MembershipSyncCommand) -> (result: String)
    ensures
        result@ == sha256_of_text(joined(membership_parts(*command))),
{
    proof {
        reveal_strlit("membership_sync");
    }
    let mut parts: Vec<String> = Vec::new();
    parts.push(text_of("membership_sync"));
    parts.push(command.conversation_id.clone());
    parts.push(command.group_name.clone());
    parts.push(decimal_text(command.target.knowledgebase_binding_id));
    parts.push(command.target.knowledgebase_binding_uuid.clone());
    parts.push(decimal_text(command.target.knowledge_space_id));
    parts.push(command.target.knowledge_space_uuid.clone());
    parts.push(decimal_text(command.membership_epoch));
    parts.push(decimal_text(command.upstream_link_generation));
    assert("membership_sync"@ =~= seq!['m', 'e', 'm', 'b', 'e', 'r', 's', 'h', 'i', 'p', '_', 's', 'y', 'n', 'c']);
    let ghost head = texts(parts@);
    append_all(&mut parts, normalized_members(&command.members));
    assert(head =~= seq![
        seq!['m', 'e', 'm', 'b', 'e', 'r', 's', 'h', 'i', 'p', '_', 's', 'y', 'n', 'c'],
        command.conversation_id@,
        command.group_name@,
        decimal(command.target.knowledgebase_binding_id as nat),
        command.target.knowledgebase_binding_uuid@,
        decimal(command.target.knowledge_space_id as nat),
        command.target.knowledge_space_uuid@,
        decimal(command.membership_epoch as nat),
        decimal(command.upstream_link_generation as nat),
    ]);
    assert(texts(parts@) =~= membership_parts(*command));
    let preimage = join_with_nul(&parts);
    sha256_hash(preimage.as_str())
}

/// The SHA-256 fingerprint of an archive command.
pub fn archive_command_fingerprint(command: &ArchiveGroupSpaceCommand) -> (result: String)
    ensures
        result@ == sha256_of_text(joined(archive_parts(*command))),
{
    proof {
        reveal_strlit("archive");
    }
    let mut parts: Vec<String> = Vec::new();
    parts.push(text_of("archive"));
    parts.push(command.conversation_id.clone());
    parts.push(decimal_text(command.target.knowledgebase_binding_id));
    parts.push(command.target.knowledgebase_binding_uuid.clone());
    parts.push(decimal_text(command.target.knowledge_space_id));
    parts.push(command.target.knowledge_space_uuid.clone());
    parts.push(decimal_text(command.membership_epoch));
    parts.push(decimal_text(command.upstream_link_generation));
    parts.push(command.archived_by.clone());
    assert("archive"@ =~= seq!['a', 'r', 'c', 'h', 'i', 'v', 'e']);
    assert(texts(parts@) =~= archive_parts(*command));
    let preimage = join_with_nul(&parts);
    sha256_hash(preimage.as_str())
}

/// The SHA-256 digest of a provisioning idempotency key, as stored on the
/// binding.
pub fn idempotency_key_hash(key: &str) -> (result: String)
    ensures
        result@ == sha256_of_text(key@),
{
    sha256_hash(key)
}

/// Law: fingerprints do not depend on member order. Two ensure requests that
/// differ only in the order of their members have the same fingerprint
/// preimage, so a redelivery with reordered members is a replay.
pub proof fn fingerprint_ignores_member_order(a: ReserveGroupSpaceRequest, b: ReserveGroupSpaceRequest)
    requires
        a.conversation_id@ == b.conversation_id@,
        a.group_name@ == b.group_name@,
        a.membership_epoch == b.membership_epoch,
        a.provisioning_idempotency_key@ == b.provisioning_idempotency_key@,
        member_texts(a.members@).to_multiset() == member_texts(b.members@).to_multiset(),
    ensures
        reservation_parts(a) == reservation_parts(b),
{
    crate::sorting::lemma_text_order_total();
    let order = text_order();
    member_texts(a.members@).lemma_sort_by_ensures(order);
    member_texts(b.members@).lemma_sort_by_ensures(order);
    vstd::seq_lib::lemma_sorted_unique(
        member_texts(a.members@).sort_by(order),
        member_texts(b.members@).sort_by(order),
        order,
    );
    assert(reservation_parts(a) =~= reservation_parts(b));
}

/// Reordering the members reorders their normalized texts: two member lists
/// with the same members have the same multiset of texts.
proof fn lemma_member_texts_follow_members(a: Seq<GroupMember>, b: Seq<GroupMember>)
    requires
        a.to_multiset() == b.to_multiset(),
    ensures
        member_texts(a).to_multiset() == member_texts(b).to_multiset(),
    decreases a.len(),
{
    broadcast use vstd::seq_lib::group_to_multiset_ensures;
    broadcast use vstd::multiset::group_multiset_axioms;

    if a.len() == 0 {
        assert(a.to_multiset().len() == a.len());
        assert(b.to_multiset().len() == b.len());
        assert(b.len() == 0);
        assert(member_texts(a) =~= Seq::<Seq<char>>::empty());
        assert(member_texts(b) =~= Seq::<Seq<char>>::empty());
    } else {
        let last = (a.len() - 1) as int;
        let e = a[last];
        let a1 = a.remove(last);
        assert(a.contains(e));
        assert(a.to_multiset().count(e) > 0);
        assert(b.to_multiset().count(e) > 0);
        assert(b.contains(e));
        let k = choose|k: int| 0 <= k < b.len() && b[k] == e;
        let b1 = b.remove(k);
        assert(a1.to_multiset() == a.to_multiset().remove(e));
        assert(b1.to_multiset() == b.to_multiset().remove(e));
        lemma_member_texts_follow_members(a1, b1);
        let ta = member_texts(a);
        let tb = member_texts(b);
        assert(member_texts(a1) =~= ta.remove(last));
        assert(member_texts(b1) =~= tb.remove(k));
        assert(ta[last] == member_text(e));
        assert(tb[k] == member_text(e));
        assert(ta.remove(last).to_multiset() == ta.to_multiset().remove(member_text(e)));
        assert(tb.remove(k).to_multiset() == tb.to_multiset().remove(member_text(e)));
        assert(ta.contains(member_text(e)));
        assert(tb.contains(member_text(e)));
        assert(ta.to_multiset() =~= ta.to_multiset().remove(member_text(e)).insert(member_text(e)));
        assert(tb.to_multiset() =~= tb.to_multiset().remove(member_text(e)).insert(member_text(e)));
    }
}

/// Law: the normalized member texts do not depend on member order. For any
/// reordering of a member list, `normalized_members` gives the same sorted
/// texts, one per member.
pub proof fn normalized_members_ignore_order(a: Seq<GroupMember>, b: Seq<GroupMember>)
    requires
        a.to_multiset() == b.to_multiset(),
    ensures
        member_texts(a).sort_by(text_order()) == member_texts(b).sort_by(text_order()),
        member_texts(a).sort_by(text_order()).len() == a.len(),
        vstd::relations::sorted_by(member_texts(a).sort_by(text_order()), text_order()),
{
    broadcast use vstd::seq_lib::group_to_multiset_ensures;

    lemma_member_texts_follow_members(a, b);
    crate::sorting::lemma_text_order_total();
    let order = text_order();
    member_texts(a).lemma_sort_by_ensures(order);
    member_texts(b).lemma_sort_by_ensures(order);
    vstd::seq_lib::lemma_sorted_unique(member_texts(a).sort_by(order), member_texts(b).sort_by(order), order);
    assert(member_texts(a).sort_by(order).to_multiset().len() == member_texts(a).sort_by(order).len());
    assert(member_texts(a).to_multiset().len() == member_texts(a).len());
}

} // verus!
