use vstd::prelude::*;

verus! {

/// The JSON body of every plain-text answer of the service.
#[derive(Clone, Debug)]
pub struct Resp {
    pub msg: String,
}

impl Resp {
    /// A response that carries `msg`.
    pub fn new(msg: &str) -> (r: Resp)
        ensures
            r.msg@ == msg@,
    {
        Resp { msg: msg.to_owned() }
    }
}

/// What a login token carries.
#[derive(Clone, Debug)]
pub struct Claims {
    pub username: String,
    pub password: String,
    pub exp: usize,
}

/// The body of a login request.
#[derive(Clone, Debug)]
pub struct LoginInfo {
    pub username: String,
    pub password: String,
}

/// A reference to a stored record: the table it lives in and its key there.
#[derive(Debug)]
pub struct RecordRef {
    pub table: String,
    pub key: String,
}

impl Clone for RecordRef {
    /// A reference to the same record.
    fn clone(&self) -> (r: RecordRef)
        ensures
            r@ == self@,
    {
        RecordRef { table: self.table.clone(), key: self.key.clone() }
    }
}

/// The mathematical value of a record reference.
pub type RecordKey = (Seq<char>, Seq<char>);

impl View for RecordRef {
    type V = RecordKey;

    open spec fn view(&self) -> RecordKey {
        (self.table@, self.key@)
    }
}

impl RecordRef {
    /// A reference to `key` in `table`.
    pub fn new(table: &str, key: &str) -> (r: RecordRef)
        ensures
            r@ == (table@, key@),
    {
        RecordRef { table: table.to_owned(), key: key.to_owned() }
    }

    /// Whether two references name the same record.
    pub fn same_record(&self, other: &RecordRef) -> (b: bool)
        ensures
            b == (self@ == other@),
    {
        self.table == other.table && self.key == other.key
    }
}

/// A time of day in a table, or a free-form description.
#[derive(Debug)]
pub enum Time {
    TimeStamp((u8, u8)),
    Other(String),
}

impl Clone for Time {
    /// The same time.
    fn clone(&self) -> (t: Time)
        ensures
            match (*self, t) {
                (Time::TimeStamp(a), Time::TimeStamp(b)) => a == b,
                (Time::Other(a), Time::Other(b)) => a@ == b@,
                _ => false,
            },
    {
        match self {
            Time::TimeStamp(p) => Time::TimeStamp(*p),
            Time::Other(s) => Time::Other(s.clone()),
        }
    }
}

impl Default for Time {
    /// Midnight.
    fn default() -> (t: Time)
        ensures
            t matches Time::TimeStamp(p) && p == (0u8, 0u8),
    {
        Time::TimeStamp((0, 0))
    }
}

/// A day of the week.
#[derive(Clone, Copy, Debug, PartialEq, Eq, Structural, Hash)]
pub enum Date {
    Sunday,
    Monday,
    Tuesday,
    Wednesday,
    Thursday,
    Friday,
    Saturday,
}

impl Default for Date {
    /// Sunday.
    fn default() -> (d: Date)
        ensures
            d == Date::Sunday,
    {
        Date::Sunday
    }
}

/// One named entry of a day's table.
#[derive(Clone, Debug)]
pub struct Slot {
    pub name: String,
    pub time: Time,
}

/// The table of one day: its entries, each under a distinct name.
#[derive(Clone, Debug)]
pub struct DaySchedule {
    pub day: Date,
    pub slots: Vec<Slot>,
}

/// A post: a title, its details, and a weekly table of named times.
#[derive(Clone, Debug)]
pub struct Post {
    pub title: String,
    pub details: String,
    pub tables: Vec<DaySchedule>,
}

impl DaySchedule {
    /// No name occurs twice in the day's table.
    pub open spec fn well_formed(&self) -> bool {
        forall|i: int, j: int|
            0 <= i < j < self.slots@.len() ==> #[trigger] self.slots@[i].name@
                != #[trigger] self.slots@[j].name@
    }
}

impl DaySchedule {
    /// Whether no name occurs twice in the day's table.
    pub fn has_distinct_names(&self) -> (b: bool)
        ensures
            b == self.well_formed(),
    {
        let n = self.slots.len();
        let mut i: usize = 0;
        while i < n
            invariant
                n == self.slots@.len(),
                i <= n,
                forall|a: int, b: int| 0 <= a < i && a < b < n ==> #[trigger] self.slots@[a].name@ != #[trigger] self.slots@[b].name@,
            decreases n - i,
        {
            let mut j: usize = i + 1;
            while j < n
                invariant
                    n == self.slots@.len(),
                    i < n,
                    i + 1 <= j <= n,
                    forall|a: int, b: int| 0 <= a < i && a < b < n ==> #[trigger] self.slots@[a].name@ != #[trigger] self.slots@[b].name@,
                    forall|b: int| i < b < j ==> self.slots@[i as int].name@ != #[trigger] self.slots@[b].name@,
                decreases n - j,
            {
                if self.slots[i].name == self.slots[j].name {
                    return false;
                }
                j = j + 1;
            }
            i = i + 1;
        }
        true
    }
}

impl Post {
    /// Whether the tables form a map (see `well_formed`).
    pub fn is_well_formed(&self) -> (b: bool)
        ensures
            b == self.well_formed(),
    {
        let n = self.tables.len();
        let mut i: usize = 0;
        while i < n
            invariant
                n == self.tables@.len(),
                i <= n,
                forall|a: int, b: int| 0 <= a < i && a < b < n ==> #[trigger] self.tables@[a].day != #[trigger] self.tables@[b].day,
                forall|a: int| 0 <= a < i ==> (#[trigger] self.tables@[a]).well_formed(),
            decreases n - i,
        {
            if !self.tables[i].has_distinct_names() {
                return false;
            }
            let mut j: usize = i + 1;
            while j < n
                invariant
                    n == self.tables@.len(),
                    i < n,
                    i + 1 <= j <= n,
                    forall|a: int, b: int| 0 <= a < i && a < b < n ==> #[trigger] self.tables@[a].day != #[trigger] self.tables@[b].day,
                    forall|a: int| 0 <= a <= i ==> (#[trigger] self.tables@[a]).well_formed(),
                    forall|b: int| i < b < j ==> self.tables@[i as int].day != #[trigger] self.tables@[b].day,
                decreases n - j,
            {
                if self.tables[i].day == self.tables[j].day {
                    return false;
                }
                j = j + 1;
            }
            i = i + 1;
        }
        true
    }
}

impl Post {
    /// The tables form a map: each day occurs once, and each day's table is a map.
    pub open spec fn well_formed(&self) -> bool {
        &&& forall|i: int, j: int|
            0 <= i < j < self.tables@.len() ==> #[trigger] self.tables@[i].day
                != #[trigger] self.tables@[j].day
        &&& forall|i: int| 0 <= i < self.tables@.len() ==> (#[trigger] self.tables@[i]).well_formed()
    }

    /// The post shown as a template: empty title and details, and a table
    /// whose only day is Sunday, holding midnight under the empty name.
    pub open spec fn is_template(&self) -> bool {
        &&& self.title@ == Seq::<char>::empty()
        &&& self.details@ == Seq::<char>::empty()
        &&& self.tables@.len() == 1
        &&& self.tables@[0].day == Date::Sunday
        &&& self.tables@[0].slots@.len() == 1
        &&& self.tables@[0].slots@[0].name@ == Seq::<char>::empty()
        &&& self.tables@[0].slots@[0].time matches Time::TimeStamp(p) && p == (0u8, 0u8)
    }
}

impl Default for Post {
    /// The template post (see `is_template`).
    fn default() -> (p: Post)
        ensures
            p.is_template(),
            p.well_formed(),
    {
        let mut slots: Vec<Slot> = Vec::new();
        slots.push(Slot { name: String::new(), time: Time::default() });
        let mut tables: Vec<DaySchedule> = Vec::new();
        tables.push(DaySchedule { day: Date::default(), slots });
        Post { title: String::new(), details: String::new(), tables }
    }
}

/// A post's tables are well formed exactly when no day occurs twice and no
/// day names an entry twice, however many days there are.
pub proof fn lemma_post_well_formed_iff_keys_distinct(p: Post)
    ensures
        p.well_formed() <==> {
            &&& forall|i: int, j: int| 0 <= i < p.tables@.len() && 0 <= j < p.tables@.len() && i != j
                ==> #[trigger] p.tables@[i].day != #[trigger] p.tables@[j].day
            &&& forall|d: int, a: int, b: int|
                0 <= d < p.tables@.len() && 0 <= a < p.tables@[d].slots@.len() && 0 <= b < p.tables@[d].slots@.len() && a != b
                ==> #[trigger] p.tables@[d].slots@[a].name@ != #[trigger] p.tables@[d].slots@[b].name@
        },
{
    if p.well_formed() {
        assert forall|i: int, j: int| 0 <= i < p.tables@.len() && 0 <= j < p.tables@.len() && i != j
            implies #[trigger] p.tables@[i].day != #[trigger] p.tables@[j].day by {
            if i > j {
                assert(p.tables@[j].day != p.tables@[i].day);
            }
        }
        assert forall|d: int, a: int, b: int|
            0 <= d < p.tables@.len() && 0 <= a < p.tables@[d].slots@.len() && 0 <= b < p.tables@[d].slots@.len() && a != b
            implies #[trigger] p.tables@[d].slots@[a].name@ != #[trigger] p.tables@[d].slots@[b].name@ by {
            assert(p.tables@[d].well_formed());
            if a > b {
                assert(p.tables@[d].slots@[b].name@ != p.tables@[d].slots@[a].name@);
            }
        }
    }
}

/// The keys of a sequence of record references.
pub open spec fn record_keys(s: Seq<RecordRef>) -> Seq<RecordKey> {
    s.map_values(|r: RecordRef| r@)
}

/// The set of records that a sequence of references names.
pub open spec fn record_set(s: Seq<RecordRef>) -> Set<RecordKey> {
    record_keys(s).to_set()
}

/// No record is named twice.
pub open spec fn distinct_records(s: Seq<RecordRef>) -> bool {
    record_keys(s).no_duplicates()
}

/// A post as stored: its id, the post, its score, and who voted it up or down.
#[derive(Clone, Debug)]
pub struct DBPost {
    pub post_id: String,
    pub post: Post,
    pub votes: isize,
    pub up_voters: Vec<RecordRef>,
    pub dw_voters: Vec<RecordRef>,
}

impl DBPost {
    /// The records that voted the post up.
    pub open spec fn up_set(&self) -> Set<RecordKey> {
        record_set(self.up_voters@)
    }

    /// The records that voted the post down.
    pub open spec fn dw_set(&self) -> Set<RecordKey> {
        record_set(self.dw_voters@)
    }

    /// Each voter list is a set, no record votes both ways, and the score is
    /// the number of up-votes less the number of down-votes.
    pub open spec fn well_formed(&self) -> bool {
        &&& distinct_records(self.up_voters@)
        &&& distinct_records(self.dw_voters@)
        &&& self.up_set().disjoint(self.dw_set())
        &&& self.votes == self.up_set().len() - self.dw_set().len()
    }
}

impl Default for DBPost {
    /// A post with an empty id, the template post, no score and no voters.
    fn default() -> (p: DBPost)
        ensures
            p.post_id@ == Seq::<char>::empty(),
            p.post.is_template(),
            p.votes == 0,
            p.up_voters@.len() == 0,
            p.dw_voters@.len() == 0,
            p.well_formed(),
    {
        let p = DBPost {
            post_id: String::new(),
            post: Post::default(),
            votes: 0,
            up_voters: Vec::new(),
            dw_voters: Vec::new(),
        };
        proof {
            assert(record_keys(p.up_voters@) =~= Seq::<RecordKey>::empty());
            assert(record_keys(p.dw_voters@) =~= Seq::<RecordKey>::empty());
            assert(p.up_set() =~= Set::<RecordKey>::empty());
            assert(p.dw_set() =~= Set::<RecordKey>::empty());
        }
        p
    }
}

/// A user as shown to clients: no password, and the stored records of the
/// posts they uploaded.
#[derive(Clone, Debug)]
pub struct UserInfo {
    pub username: String,
    pub fullname: String,
    pub up_posts: Vec<DBPost>,
    pub pic_path: String,
}

/// A user as stored, with references to the posts they uploaded.
#[derive(Clone, Debug)]
pub struct DBUserInfo {
    pub username: String,
    pub fullname: String,
    pub password: String,
    pub up_posts: Vec<RecordRef>,
    pub pic_path: String,
}

} // verus!
