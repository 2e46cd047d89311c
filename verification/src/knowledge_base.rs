//! The knowledge corpus: a fixed list of short advisory documents on crops,
//! weather, pest control, market prices and soil.

use vstd::prelude::*;

verus! {

/// One entry of the corpus.
#[derive(Clone, Debug)]
pub struct Document {
    pub title: String,
    pub content: String,
    /// One of `crops`, `weather`, `pest_control`, `market_prices`, `soil`.
    pub category: String,
    /// Attribution of the content.
    pub source: String,
}

/// The mathematical value of a `Document`: its four texts.
pub struct DocumentView {
    pub title: Seq<char>,
    pub content: Seq<char>,
    pub category: Seq<char>,
    pub source: Seq<char>,
}

impl View for Document {
    type V = DocumentView;

    open spec fn view(&self) -> DocumentView {
        DocumentView {
            title: self.title@,
            content: self.content@,
            category: self.category@,
            source: self.source@,
        }
    }
}

/// The values of a sequence of documents, in order.
pub open spec fn document_views(docs: Seq<Document>) -> Seq<DocumentView> {
    Seq::new(docs.len(), |i: int| docs[i]@)
}

/// The document value made of four texts.
pub open spec fn entry(title: &str, content: &str, category: &str, source: &str) -> DocumentView {
    DocumentView { title: title@, content: content@, category: category@, source: source@ }
}

impl Document {
    /// A document made of four texts.
    pub fn new(title: &str, content: &str, category: &str, source: &str) -> (doc: Document)
        ensures
            doc@ == entry(title, content, category, source),
    {
        Document {
            title: String::from_str(title),
            content: String::from_str(content),
            category: String::from_str(category),
            source: String::from_str(source),
        }
    }

    /// A copy with the same four texts.
    pub fn duplicate(&self) -> (doc: Document)
        ensures
            doc@ == self@,
    {
        Document {
            title: self.title.clone(),
            content: self.content.clone(),
            category: self.category.clone(),
            source: self.source.clone(),
        }
    }
}

// The five category tags.
pub const CROPS: &'static str = "crops";

pub const WEATHER: &'static str = "weather";

pub const PEST_CONTROL: &'static str = "pest_control";

pub const MARKET_PRICES: &'static str = "market_prices";

pub const SOIL: &'static str = "soil";

// The documents: title, content and source of each.
pub const WHEAT_TITLE: &'static str = "Wheat Cultivation - Rabi Season";

pub const WHEAT_CONTENT: &'static str = "Wheat is a major rabi crop in India. Best sowing time is October to November. \
     Ideal soil temperature is 20-25°C. Requires 4-5 irrigations. Popular varieties: \
     HD-2967, PBW-343, DBW-17. Yield potential: 45-50 quintals per hectare with proper care.";

pub const WHEAT_SOURCE: &'static str = "ICAR Wheat Guidelines";

pub const TOMATO_TITLE: &'static str = "Tomato Farming";

pub const TOMATO_CONTENT: &'static str = "Tomatoes can be grown year-round in most parts of India. Optimal temperature: 20-27°C. \
     Requires well-drained loamy soil with pH 6.0-7.0. Spacing: 60x45cm. Popular varieties: \
     Pusa Ruby, Arka Vikas. Common diseases: Early blight, late blight. Use drip irrigation.";

pub const TOMATO_SOURCE: &'static str = "TNAU Agritech Portal";

pub const ONION_TITLE: &'static str = "Onion Cultivation";

pub const ONION_CONTENT: &'static str = "Onion is grown in Kharif (June-July), Late Kharif (Sept-Oct), and Rabi (Dec-Jan). \
     Requires sandy loam to clay loam soil. Popular varieties: Agrifound Dark Red, Pusa Red. \
     Harvest when 50% tops fall. Store in well-ventilated rooms. Avoid waterlogging.";

pub const ONION_SOURCE: &'static str = "NHRDF Guidelines";

pub const RICE_TITLE: &'static str = "Rice Paddy Cultivation";

pub const RICE_CONTENT: &'static str = "Rice is the staple Kharif crop. Sowing: June-July with monsoon onset. Transplanting age: \
     21-25 days. Water management: 5cm standing water during vegetative stage. Popular varieties: \
     Swarna, IR-64, Pusa Basmati. Harvest at 80% grain maturity.";

pub const RICE_SOURCE: &'static str = "DRR Hyderabad";

pub const MONSOON_TITLE: &'static str = "Monsoon Season Advisory";

pub const MONSOON_CONTENT: &'static str = "During monsoon (June-September), ensure proper field drainage. Avoid fertilizer application \
     during heavy rains. Watch for fungal diseases. Prepare for Kharif sowing. Check soil moisture \
     before irrigation. Use raised beds for vegetables to prevent waterlogging.";

pub const MONSOON_SOURCE: &'static str = "IMD Advisory";

pub const WINTER_TITLE: &'static str = "Winter Season Farming Tips";

pub const WINTER_CONTENT: &'static str = "Winter (November-February) is ideal for Rabi crops. Protect crops from frost - use mulching \
     or smoke. Irrigate during evening to prevent frost damage. This season suits wheat, gram, \
     mustard, peas. Ensure timely sowing before December end.";

pub const WINTER_SOURCE: &'static str = "IMD Advisory";

pub const SUMMER_TITLE: &'static str = "Summer Season Advisory";

pub const SUMMER_CONTENT: &'static str = "Summer (March-May) requires frequent irrigation. Use mulching to retain soil moisture. \
     Suitable crops: Watermelon, muskmelon, cucumber, okra. Avoid mid-day irrigation. \
     Provide shade for nurseries. Watch for pest outbreaks in hot weather.";

pub const SUMMER_SOURCE: &'static str = "IMD Advisory";

pub const APHID_TITLE: &'static str = "Aphid Control in Vegetables";

pub const APHID_CONTENT: &'static str = "Aphids are common pests in leafy vegetables and brassicas. Symptoms: curling leaves, \
     honeydew deposits. Control: Spray neem oil (5ml/L), or use yellow sticky traps. \
     Biological control: Release ladybird beetles. Avoid excessive nitrogen fertilization.";

pub const APHID_SOURCE: &'static str = "ICAR Pest Management";

pub const STEM_BORER_TITLE: &'static str = "Stem Borer in Rice";

pub const STEM_BORER_CONTENT: &'static str = "Yellow stem borer causes 'dead heart' in vegetative stage and 'white ear' at panicle stage. \
     Control: Remove and destroy affected tillers. Use pheromone traps at 5/ha. Apply Cartap \
     hydrochloride 4G at 25kg/ha. Avoid late planting. Maintain field sanitation.";

pub const STEM_BORER_SOURCE: &'static str = "DRR Advisory";

pub const FRUIT_FLY_TITLE: &'static str = "Fruit Fly in Vegetables";

pub const FRUIT_FLY_CONTENT: &'static str = "Fruit fly damages cucurbits (pumpkin, bitter gourd, cucumber). Maggots bore into fruits. \
     Control: Use cue-lure traps at 25/ha. Spray Spinosad 45SC at 0.3ml/L. Collect and destroy \
     fallen fruits. Apply neem cake in soil. Harvest at right maturity.";

pub const FRUIT_FLY_SOURCE: &'static str = "IIHR Bangalore";

pub const MANDI_PRICES_TITLE: &'static str = "Current Mandi Prices - Maharashtra";

pub const MANDI_PRICES_CONTENT: &'static str = "Today's wholesale prices (per quintal): Onion (Red): ₹1,800-2,200, Tomato: ₹1,500-1,800, \
     Potato: ₹1,200-1,500, Wheat: ₹2,200-2,400, Rice: ₹2,800-3,200, Soybean: ₹4,500-4,800. \
     Prices vary by mandi and quality grade.";

pub const MANDI_PRICES_SOURCE: &'static str = "AgriMarket Portal";

pub const MSP_RATES_TITLE: &'static str = "MSP Rates 2024-25";

pub const MSP_RATES_CONTENT: &'static str = "Minimum Support Prices for major crops: Paddy (Common): ₹2,300/qtl, Wheat: ₹2,275/qtl, \
     Gram: ₹5,440/qtl, Mustard: ₹5,650/qtl, Cotton (Medium): ₹7,020/qtl. MSP ensures farmers \
     get minimum guaranteed price. Sell at government procurement centers.";

pub const MSP_RATES_SOURCE: &'static str = "Ministry of Agriculture";

pub const SOIL_TESTING_TITLE: &'static str = "Soil Testing Importance";

pub const SOIL_TESTING_CONTENT: &'static str = "Soil testing should be done every 2-3 years. Collect samples from 0-15cm depth, 10-15 spots \
     per field. Test for N, P, K, pH, EC, organic carbon. Based on results, apply balanced fertilizers. \
     Avoid over-fertilization. Contact nearest Krishi Vigyan Kendra for testing.";

pub const SOIL_TESTING_SOURCE: &'static str = "Soil Health Card Scheme";

pub const ORGANIC_MATTER_TITLE: &'static str = "Organic Matter Management";

pub const ORGANIC_MATTER_CONTENT: &'static str = "Maintain soil organic carbon above 0.5%. Add FYM at 10-15 tonnes/ha annually. Use green \
     manuring with dhaincha or sunhemp. Incorporate crop residues. Vermicompost is excellent for \
     improving soil structure. Avoid burning stubble.";

pub const ORGANIC_MATTER_SOURCE: &'static str = "ICAR Soil Science";

/// The number of documents in the corpus.
pub const CORPUS_SIZE: usize = 14;

/// The corpus as a mathematical sequence, in its fixed order.
pub open spec fn corpus() -> Seq<DocumentView> {
    seq![
        entry(WHEAT_TITLE, WHEAT_CONTENT, CROPS, WHEAT_SOURCE),
        entry(TOMATO_TITLE, TOMATO_CONTENT, CROPS, TOMATO_SOURCE),
        entry(ONION_TITLE, ONION_CONTENT, CROPS, ONION_SOURCE),
        entry(RICE_TITLE, RICE_CONTENT, CROPS, RICE_SOURCE),
        entry(MONSOON_TITLE, MONSOON_CONTENT, WEATHER, MONSOON_SOURCE),
        entry(WINTER_TITLE, WINTER_CONTENT, WEATHER, WINTER_SOURCE),
        entry(SUMMER_TITLE, SUMMER_CONTENT, WEATHER, SUMMER_SOURCE),
        entry(APHID_TITLE, APHID_CONTENT, PEST_CONTROL, APHID_SOURCE),
        entry(STEM_BORER_TITLE, STEM_BORER_CONTENT, PEST_CONTROL, STEM_BORER_SOURCE),
        entry(FRUIT_FLY_TITLE, FRUIT_FLY_CONTENT, PEST_CONTROL, FRUIT_FLY_SOURCE),
        entry(MANDI_PRICES_TITLE, MANDI_PRICES_CONTENT, MARKET_PRICES, MANDI_PRICES_SOURCE),
        entry(MSP_RATES_TITLE, MSP_RATES_CONTENT, MARKET_PRICES, MSP_RATES_SOURCE),
        entry(SOIL_TESTING_TITLE, SOIL_TESTING_CONTENT, SOIL, SOIL_TESTING_SOURCE),
        entry(ORGANIC_MATTER_TITLE, ORGANIC_MATTER_CONTENT, SOIL, ORGANIC_MATTER_SOURCE),
    ]
}

/// Builds the corpus. Every call gives the same documents in the same order.
pub fn get_all_documents() -> (docs: Vec<Document>)
    ensures
        document_views(docs@) == corpus(),
        docs@.len() == CORPUS_SIZE,
{
    let mut docs: Vec<Document> = Vec::new();
    docs.push(Document::new(WHEAT_TITLE, WHEAT_CONTENT, CROPS, WHEAT_SOURCE));
    docs.push(Document::new(TOMATO_TITLE, TOMATO_CONTENT, CROPS, TOMATO_SOURCE));
    docs.push(Document::new(ONION_TITLE, ONION_CONTENT, CROPS, ONION_SOURCE));
    docs.push(Document::new(RICE_TITLE, RICE_CONTENT, CROPS, RICE_SOURCE));
    docs.push(Document::new(MONSOON_TITLE, MONSOON_CONTENT, WEATHER, MONSOON_SOURCE));
    docs.push(Document::new(WINTER_TITLE, WINTER_CONTENT, WEATHER, WINTER_SOURCE));
    docs.push(Document::new(SUMMER_TITLE, SUMMER_CONTENT, WEATHER, SUMMER_SOURCE));
    docs.push(Document::new(APHID_TITLE, APHID_CONTENT, PEST_CONTROL, APHID_SOURCE));
    docs.push(Document::new(STEM_BORER_TITLE, STEM_BORER_CONTENT, PEST_CONTROL, STEM_BORER_SOURCE));
    docs.push(Document::new(FRUIT_FLY_TITLE, FRUIT_FLY_CONTENT, PEST_CONTROL, FRUIT_FLY_SOURCE));
    docs.push(Document::new(MANDI_PRICES_TITLE, MANDI_PRICES_CONTENT, MARKET_PRICES, MANDI_PRICES_SOURCE));
    docs.push(Document::new(MSP_RATES_TITLE, MSP_RATES_CONTENT, MARKET_PRICES, MSP_RATES_SOURCE));
    docs.push(Document::new(SOIL_TESTING_TITLE, SOIL_TESTING_CONTENT, SOIL, SOIL_TESTING_SOURCE));
    docs.push(Document::new(ORGANIC_MATTER_TITLE, ORGANIC_MATTER_CONTENT, SOIL, ORGANIC_MATTER_SOURCE));
    assert(document_views(docs@) =~= corpus());
    docs
}

} // verus!
